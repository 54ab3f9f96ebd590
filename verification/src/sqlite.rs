use vstd::prelude::*;

use crate::error::Error;
use crate::StorageClient;

verus! {

#[verifier::external_type_specification]
#[verifier::external_body]
pub struct ExConnection(rusqlite::Connection);

/// The rows of the embedded store's `objects` table, as a map from object
/// name to the stored bytes.
pub uninterp spec fn stored_objects(c: rusqlite::Connection) -> Map<Seq<char>, Seq<u8>>;

/// How a store operation can fail: the looked-up name had no row, or the
/// driver reported a failure (described by its text).
pub(crate) enum StoreFailure {
    NotFound,
    Failure { text: String },
}

/// Relies on rusqlite::Connection::open: opens the database file at the given
/// path, creating it if absent.
#[verifier::external_body]
fn open_connection(path: &str) -> (r: Result<rusqlite::Connection, StoreFailure>) {
    match rusqlite::Connection::open(path) {
        Ok(c) => Ok(c),
        Err(e) => Err(StoreFailure::Failure { text: format!("{:?}", e) }),
    }
}

/// Relies on rusqlite::Connection::open_in_memory: a fresh store that holds
/// no rows at all.
#[verifier::external_body]
fn open_in_memory_connection() -> (r: Result<rusqlite::Connection, StoreFailure>)
    ensures
        (match r {
            Ok(c) => stored_objects(c) == Map::<Seq<char>, Seq<u8>>::empty(),
            Err(_) => true,
        }),
{
    match rusqlite::Connection::open_in_memory() {
        Ok(c) => Ok(c),
        Err(e) => Err(StoreFailure::Failure { text: format!("{:?}", e) }),
    }
}

/// Relies on rusqlite::Connection::execute running
/// `CREATE TABLE IF NOT EXISTS`: initialization is idempotent and never
/// touches existing rows.
#[verifier::external_body]
fn create_objects_table(c: &mut rusqlite::Connection) -> (r: Result<(), StoreFailure>)
    ensures
        stored_objects(*final(c)) == stored_objects(*old(c)),
{
    let sql = "CREATE TABLE IF NOT EXISTS objects (id TEXT NOT NULL, raw BLOB NOT NULL, PRIMARY KEY (id))";
    match c.execute(sql, ()) {
        Ok(_) => Ok(()),
        Err(e) => Err(StoreFailure::Failure { text: format!("{:?}", e) }),
    }
}

/// Relies on rusqlite::Connection::query_row over
/// `SELECT raw FROM objects WHERE id = ?`: a successful lookup returns
/// exactly the bytes stored under the name, and a no-row result
/// (QueryReturnedNoRows) means the name has no row.
#[verifier::external_body]
fn select_object(c: &rusqlite::Connection, name: &str) -> (r: Result<Vec<u8>, StoreFailure>)
    ensures
        r matches Ok(v) ==> stored_objects(*c).contains_key(name@) && v@ == stored_objects(*c)[name@],
        r matches Err(f) && f is NotFound ==> !stored_objects(*c).contains_key(name@),
{
    match c.query_row("SELECT raw FROM objects WHERE id = ?", (name,), |row| row.get::<_, Vec<u8>>(0)) {
        Ok(v) => Ok(v),
        Err(rusqlite::Error::QueryReturnedNoRows) => Err(StoreFailure::NotFound),
        Err(e) => Err(StoreFailure::Failure { text: format!("{:?}", e) }),
    }
}

/// Relies on rusqlite::Connection::execute over
/// `INSERT INTO objects (id, raw) VALUES (?, ?)` and the table's primary key
/// on id: a success inserts exactly the one new row and is only possible when
/// the name was absent; any failure — a duplicate name among them — leaves
/// the rows unchanged, the insert being a single atomic statement.
#[verifier::external_body]
fn insert_object(c: &mut rusqlite::Connection, name: &str, raw: &[u8]) -> (r: Result<(), StoreFailure>)
    ensures
        r is Ok ==> !stored_objects(*old(c)).contains_key(name@)
            && stored_objects(*final(c)) == stored_objects(*old(c)).insert(name@, raw@),
        r is Err ==> stored_objects(*final(c)) == stored_objects(*old(c)),
        stored_objects(*old(c)).contains_key(name@) ==> r is Err,
        r matches Err(f) ==> f is Failure,
{
    match c.execute("INSERT INTO objects (id, raw) VALUES (?, ?)", (name, raw)) {
        Ok(_) => Ok(()),
        Err(e) => Err(StoreFailure::Failure { text: format!("{:?}", e) }),
    }
}

/// Maps a store failure to the taxonomy's `Storage` kind: a missing row is
/// reported as "not found", a driver failure with the driver's own text.
fn store_error(f: StoreFailure) -> (e: Error)
    ensures
        e is Storage,
        f is NotFound ==> (e matches Error::Storage { text } && text@ == "not found"@),
        f matches StoreFailure::Failure { text: t } ==> (e matches Error::Storage { text } && text@ == t@),
{
    match f {
        StoreFailure::NotFound => Error::Storage { text: "not found".to_owned() },
        StoreFailure::Failure { text } => Error::Storage { text },
    }
}

/// The embedded backend: one handle to a local relational store whose single
/// `objects` table maps each name to its bytes. Its view is the stored map.
pub struct SqliteClient {
    connection: rusqlite::Connection,
}

impl View for SqliteClient {
    type V = Map<Seq<char>, Seq<u8>>;

    closed spec fn view(&self) -> Map<Seq<char>, Seq<u8>> {
        stored_objects(self.connection)
    }
}

impl SqliteClient {
    /// Opens (or creates) the store at `path` and idempotently initializes
    /// the objects table; existing rows are kept unchanged.
    pub fn new(path: &str) -> (r: Result<SqliteClient, Error>)
        ensures
            r matches Err(e) ==> e is Storage,
    {
        let mut connection = match open_connection(path) {
            Ok(c) => c,
            Err(f) => return Err(store_error(f)),
        };
        match create_objects_table(&mut connection) {
            Ok(()) => Ok(SqliteClient { connection }),
            Err(f) => Err(store_error(f)),
        }
    }

    /// A fresh store kept in memory, holding no objects.
    pub fn new_in_memory() -> (r: Result<SqliteClient, Error>)
        ensures
            r matches Ok(c) ==> c@ == Map::<Seq<char>, Seq<u8>>::empty(),
            r matches Err(e) ==> e is Storage,
    {
        let mut connection = match open_in_memory_connection() {
            Ok(c) => c,
            Err(f) => return Err(store_error(f)),
        };
        match create_objects_table(&mut connection) {
            Ok(()) => Ok(SqliteClient { connection }),
            Err(f) => Err(store_error(f)),
        }
    }
}

impl StorageClient for SqliteClient {
    /// A successful fetch returns exactly the bytes stored under the name; a
    /// name with no row cannot be fetched; every failure is a `Storage` error.
    open spec fn fetch_ens(&self, name: Seq<char>, r: Result<Vec<u8>, Error>) -> bool {
        &&& (r matches Ok(v) ==> self@.contains_key(name) && v@ == self@[name])
        &&& (!self@.contains_key(name) ==> r is Err)
        &&& (r matches Err(e) ==> e is Storage)
    }

    /// A successful create was a single new row under a previously absent
    /// name; a failed create — a duplicate name forces one — leaves the store
    /// unchanged; every failure is a `Storage` error.
    open spec fn create_ens(&self, post: Self, name: Seq<char>, bytes: Seq<u8>, r: Result<(), Error>) -> bool {
        &&& (r is Ok ==> !self@.contains_key(name) && post@ == self@.insert(name, bytes))
        &&& (r is Err ==> post@ == self@)
        &&& (self@.contains_key(name) ==> r is Err)
        &&& (r matches Err(e) ==> e is Storage)
    }

    fn fetch_object(&self, name: &str) -> (r: Result<Vec<u8>, Error>) {
        match select_object(&self.connection, name) {
            Ok(v) => Ok(v),
            Err(f) => Err(store_error(f)),
        }
    }

    fn create_object(&mut self, name: &str, bytes: Vec<u8>) -> (r: Result<(), Error>) {
        match insert_object(&mut self.connection, name, bytes.as_slice()) {
            Ok(()) => Ok(()),
            Err(f) => Err(store_error(f)),
        }
    }
}

/// Law: for every byte sequence b, a fetch immediately after a successful
/// create(name, b) against the same embedded client returns exactly b — the
/// create contract leaves b stored under name (so the not-found failure
/// cannot occur), and the fetch contract makes any successful fetch return
/// precisely what is stored there.
pub proof fn lemma_create_then_fetch_roundtrip(
    pre: SqliteClient,
    post: SqliteClient,
    name: Seq<char>,
    b: Seq<u8>,
    fetched: Result<Vec<u8>, Error>,
)
    requires
        pre.create_ens(post, name, b, Ok(())),
        post.fetch_ens(name, fetched),
    ensures
        post@.contains_key(name),
        post@[name] == b,
        fetched matches Ok(v) ==> v@ == b,
{
}

/// Law: a create that reuses an existing name must fail with a `Storage`
/// error and leave the store — the original row's bytes among it — unchanged:
/// the embedded create contract refuses any name already present.
pub proof fn lemma_duplicate_create_rejected(
    pre: SqliteClient,
    post: SqliteClient,
    name: Seq<char>,
    bytes: Seq<u8>,
    r: Result<(), Error>,
)
    requires
        pre@.contains_key(name),
        pre.create_ens(post, name, bytes, r),
    ensures
        r is Err,
        r matches Err(e) ==> e is Storage,
        post@ == pre@,
{
}

/// Law: a fetch of a never-created name cannot succeed — the embedded fetch
/// contract forces a failure, and every embedded failure is a `Storage` error.
pub proof fn lemma_fetch_missing_fails(
    client: SqliteClient,
    name: Seq<char>,
    r: Result<Vec<u8>, Error>,
)
    requires
        !client@.contains_key(name),
        client.fetch_ens(name, r),
    ensures
        r is Err,
        r matches Err(e) ==> e is Storage,
{
}

/// Law: successful creates under distinct names do not disturb one another —
/// after both complete, each name still holds its own bytes, so every object
/// remains independently fetchable.
pub proof fn lemma_distinct_creates_independent(
    c0: SqliteClient,
    c1: SqliteClient,
    c2: SqliteClient,
    name1: Seq<char>,
    b1: Seq<u8>,
    name2: Seq<char>,
    b2: Seq<u8>,
)
    requires
        name1 != name2,
        c0.create_ens(c1, name1, b1, Ok(())),
        c1.create_ens(c2, name2, b2, Ok(())),
    ensures
        c2@.contains_key(name1) && c2@[name1] == b1,
        c2@.contains_key(name2) && c2@[name2] == b2,
{
}

/// Whether a file name is relative: it does not begin with a path separator.
pub open spec fn spec_is_relative(name: Seq<char>) -> bool {
    !(name.len() > 0 && name[0] == '/')
}

/// The path obtained by extending `root` with `name`, inserting a separator
/// unless `root` is empty or already ends with one.
pub open spec fn spec_join(root: Seq<char>, name: Seq<char>) -> Seq<char> {
    if root.len() == 0 || root[root.len() - 1] == '/' {
        root + name
    } else {
        root + "/"@ + name
    }
}

/// Extends `root` with `name` when `name` is relative; an absolute name —
/// which could escape the root — is refused.
pub fn safe_file_name(root: String, name: String) -> (r: Option<String>)
    ensures
        spec_is_relative(name@) ==> (r matches Some(p) && p@ == spec_join(root@, name@)),
        !spec_is_relative(name@) ==> r is None,
{
    let name_len = name.as_str().unicode_len();
    if name_len > 0 && name.as_str().get_char(0) == '/' {
        return None;
    }
    let root_len = root.as_str().unicode_len();
    let mut out = root;
    if root_len > 0 && out.as_str().get_char(root_len - 1) == '/' {
        out.append(name.as_str());
    } else if root_len == 0 {
        out.append(name.as_str());
    } else {
        out.append("/");
        out.append(name.as_str());
    }
    Some(out)
}

} // verus!
