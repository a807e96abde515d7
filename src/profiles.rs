//! Stored deployment profiles: their file names, how a failure of the store
//! is reported, and the table that lists them.

use vstd::prelude::*;
use crate::error::DeployError;
use crate::paths::{join, joined};

verus! {

/// A deployment profile: the context path to mount the application under and
/// the build project that produces it.
pub struct Profile {
    pub path: String,
    pub project_path: String,
}

/// A stored profile, under the name of the file that holds it.
pub struct ProfileRecord {
    pub name: String,
    pub profile: Profile,
}

/// The file name a profile is stored under.
pub open spec fn record_file(name: Seq<char>) -> Seq<char> {
    name + ".toml"@
}

/// The directory the profiles are stored in, below the user's home.
pub open spec fn profile_folder(home: Seq<char>) -> Seq<char> {
    joined(joined(home, ".config"@), "tomcatctl"@)
}

/// The directory the profiles are stored in: `.config/tomcatctl` below the
/// user's home directory.
pub fn profile_dir(home: &str) -> (r: String)
    ensures
        r@ == profile_folder(home@),
{
    let c = join(home, ".config");
    join(c.as_str(), "tomcatctl")
}

/// The operations of the profile store.
#[derive(Debug, Clone, Copy, PartialEq, Eq, Structural)]
pub enum StoreOp {
    Add,
    Load,
    Remove,
}

/// How an operation of the profile store failed.
#[derive(Debug, Clone, Copy, PartialEq, Eq, Structural)]
pub enum StoreFailure {
    /// The record's file does not exist.
    Missing,
    /// The record's file exists already.
    Exists,
    /// The record's text does not parse as a profile.
    Unparsable,
    /// Any other failure of the filesystem.
    Other,
}

/// The error that reports a failed operation of the store.
pub open spec fn store_error_of(op: StoreOp, f: StoreFailure) -> DeployError {
    match f {
        StoreFailure::Missing => if op == StoreOp::Add {
            DeployError::IoError
        } else {
            DeployError::ConfigNotFound
        },
        StoreFailure::Exists => if op == StoreOp::Add {
            DeployError::ConfigAlreadyExists
        } else {
            DeployError::IoError
        },
        StoreFailure::Unparsable => if op == StoreOp::Load {
            DeployError::ConfigCorrupt
        } else {
            DeployError::IoError
        },
        StoreFailure::Other => DeployError::IoError,
    }
}

/// The file name a profile is stored under: its name followed by `.toml`.
pub fn profile_file_name(name: &str) -> (r: String)
    ensures
        r@ == record_file(name@),
{
    let mut r = String::from_str(name);
    r.append(".toml");
    r
}

/// The error that reports a failed operation of the store: adding over an
/// existing record, loading or removing a missing one, loading one that does
/// not parse; anything else is a failure of the filesystem.
pub fn store_error(op: StoreOp, failure: StoreFailure) -> (r: DeployError)
    ensures
        r == store_error_of(op, failure),
{
    match failure {
        StoreFailure::Missing => if op == StoreOp::Add {
            DeployError::IoError
        } else {
            DeployError::ConfigNotFound
        },
        StoreFailure::Exists => if op == StoreOp::Add {
            DeployError::ConfigAlreadyExists
        } else {
            DeployError::IoError
        },
        StoreFailure::Unparsable => if op == StoreOp::Load {
            DeployError::ConfigCorrupt
        } else {
            DeployError::IoError
        },
        StoreFailure::Other => DeployError::IoError,
    }
}

/// The header row of the listing.
pub open spec fn header_row() -> Seq<Seq<char>> {
    seq!["Name"@, "Path"@, "Project Path"@]
}

/// The row of the listing for one stored profile.
pub open spec fn record_row(r: ProfileRecord) -> Seq<Seq<char>> {
    seq![r.name@, r.profile.path@, r.profile.project_path@]
}

/// The rows of the listing: the header, then one row per record in order.
pub open spec fn listing_rows(recs: Seq<ProfileRecord>) -> Seq<Seq<Seq<char>>> {
    seq![header_row()] + recs.map_values(|r: ProfileRecord| record_row(r))
}

/// What tabled renders for the given rows in its rounded style.
pub uninterp spec fn rounded_table_of(rows: Seq<Seq<Seq<char>>>) -> Seq<char>;

/// Relies on tabled's `Builder` (built from the rows, then `build`) and
/// `Style::rounded`: the rendered text depends on the rows alone.
#[verifier::external_body]
fn render_rounded(rows: Vec<Vec<String>>) -> (r: String)
    ensures
        r@ == rounded_table_of(rows.deep_view()),
{
    let builder = tabled::builder::Builder::from(rows);
    builder.build().with(tabled::settings::Style::rounded()).to_string()
}

fn text(s: &str) -> (r: String)
    ensures
        r@ == s@,
{
    String::from_str(s)
}

/// The rows of the listing of the given records, header first.
pub fn profile_rows(recs: &Vec<ProfileRecord>) -> (r: Vec<Vec<String>>)
    ensures
        r.deep_view() == listing_rows(recs@),
{
    let mut header: Vec<String> = Vec::new();
    header.push(text("Name"));
    header.push(text("Path"));
    header.push(text("Project Path"));
    assert(header.deep_view() =~= header_row());
    let mut rows: Vec<Vec<String>> = Vec::new();
    rows.push(header);
    assert(recs@.subrange(0, 0).map_values(|r: ProfileRecord| record_row(r)) =~= Seq::<
        Seq<Seq<char>>,
    >::empty());
    assert(rows.deep_view() =~= listing_rows(recs@.subrange(0, 0)));
    let mut i: usize = 0;
    while i < recs.len()
        invariant
            i <= recs.len(),
            rows.deep_view() =~= listing_rows(recs@.subrange(0, i as int)),
        decreases recs.len() - i,
    {
        let ghost before = rows.deep_view();
        let mut row: Vec<String> = Vec::new();
        row.push(recs[i].name.clone());
        row.push(recs[i].profile.path.clone());
        row.push(recs[i].profile.project_path.clone());
        assert(row.deep_view() =~= record_row(recs@[i as int]));
        rows.push(row);
        assert(rows.deep_view() =~= before.push(record_row(recs@[i as int])));
        assert(recs@.subrange(0, i + 1) =~= recs@.subrange(0, i as int).push(recs@[i as int]));
        i = i + 1;
        assert(rows.deep_view() =~= listing_rows(recs@.subrange(0, i as int)));
    }
    assert(recs@.subrange(0, recs.len() as int) =~= recs@);
    rows
}

/// The listing of the stored profiles as a table with rounded borders.
pub fn profile_table(recs: &Vec<ProfileRecord>) -> (r: String)
    ensures
        r@ == rounded_table_of(listing_rows(recs@)),
{
    let rows = profile_rows(recs);
    render_rounded(rows)
}

} // verus!
