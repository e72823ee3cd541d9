use vstd::prelude::*;

verus! {

use crate::error::{Error, Result};
use crate::keyed::{push_sep, sep};
use crate::model::Task;
use crate::time::Timestamp;

/// The tables of the database dump that ingestion reads.
#[derive(Debug, Clone, Copy, PartialEq, Eq, Structural)]
pub enum DumpTable {
    Crates,
    CrateOwners,
    Versions,
    VersionAuthors,
    CratesCategories,
    Categories,
    CratesKeywords,
    Keywords,
    Users,
    Teams,
}

/// How the rows of a table are kept once parsed.
#[derive(Debug, Clone, Copy, PartialEq, Eq, Structural)]
pub enum TableLayout {
    /// Rows by their id.
    Mapping,
    /// Rows in file order.
    Sequence,
}

pub open spec fn table_name(t: DumpTable) -> Seq<char> {
    match t {
        DumpTable::Crates => "crates"@,
        DumpTable::CrateOwners => "crate_owners"@,
        DumpTable::Versions => "versions"@,
        DumpTable::VersionAuthors => "version_authors"@,
        DumpTable::CratesCategories => "crates_categories"@,
        DumpTable::Categories => "categories"@,
        DumpTable::CratesKeywords => "crates_keywords"@,
        DumpTable::Keywords => "keywords"@,
        DumpTable::Users => "users"@,
        DumpTable::Teams => "teams"@,
    }
}

/// The table whose name is `stem`, if any.
pub open spec fn table_named(stem: Seq<char>) -> Option<DumpTable> {
    if stem == "crates"@ {
        Some(DumpTable::Crates)
    } else if stem == "crate_owners"@ {
        Some(DumpTable::CrateOwners)
    } else if stem == "versions"@ {
        Some(DumpTable::Versions)
    } else if stem == "version_authors"@ {
        Some(DumpTable::VersionAuthors)
    } else if stem == "crates_categories"@ {
        Some(DumpTable::CratesCategories)
    } else if stem == "categories"@ {
        Some(DumpTable::Categories)
    } else if stem == "crates_keywords"@ {
        Some(DumpTable::CratesKeywords)
    } else if stem == "keywords"@ {
        Some(DumpTable::Keywords)
    } else if stem == "users"@ {
        Some(DumpTable::Users)
    } else if stem == "teams"@ {
        Some(DumpTable::Teams)
    } else {
        None
    }
}

/// The last component of a `/`-separated path.
pub open spec fn file_name(p: Seq<char>) -> Seq<char>
    decreases p.len(),
{
    if p.len() == 0 {
        p
    } else if p.last() == '/' {
        Seq::empty()
    } else {
        file_name(p.drop_last()).push(p.last())
    }
}

/// The table that an archive entry at `path` holds: the one whose name followed by
/// `.csv` is the path's last component.
pub open spec fn whitelisted(path: Seq<char>) -> Option<DumpTable> {
    let f = file_name(path);
    if f.len() >= 4 && f.skip(f.len() - 4) == ".csv"@ {
        table_named(f.take(f.len() - 4))
    } else {
        None
    }
}

impl DumpTable {
    /// The table's name in the dump.
    pub fn name(&self) -> (r: &'static str)
        ensures
            r@ == table_name(*self),
    {
        match self {
            DumpTable::Crates => "crates",
            DumpTable::CrateOwners => "crate_owners",
            DumpTable::Versions => "versions",
            DumpTable::VersionAuthors => "version_authors",
            DumpTable::CratesCategories => "crates_categories",
            DumpTable::Categories => "categories",
            DumpTable::CratesKeywords => "crates_keywords",
            DumpTable::Keywords => "keywords",
            DumpTable::Users => "users",
            DumpTable::Teams => "teams",
        }
    }

    /// Tables of entities are kept by id, tables of relations as a sequence.
    pub fn layout(&self) -> (r: TableLayout)
        ensures
            r == match self {
                DumpTable::CrateOwners | DumpTable::VersionAuthors | DumpTable::CratesCategories
                | DumpTable::CratesKeywords => TableLayout::Sequence,
                _ => TableLayout::Mapping,
            },
    {
        match self {
            DumpTable::CrateOwners | DumpTable::VersionAuthors | DumpTable::CratesCategories
            | DumpTable::CratesKeywords => TableLayout::Sequence,
            _ => TableLayout::Mapping,
        }
    }
}

/// Whether two strings hold the same characters.
pub fn str_eq(a: &str, b: &str) -> (r: bool)
    ensures
        r == (a@ == b@),
{
    let n = a.unicode_len();
    if n != b.unicode_len() {
        return false;
    }
    let mut i: usize = 0;
    while i < n
        invariant
            n == a@.len(),
            n == b@.len(),
            i <= n,
            forall|k: int| 0 <= k < i ==> a@[k] == b@[k],
        decreases n - i,
    {
        if a.get_char(i) != b.get_char(i) {
            return false;
        }
        i = i + 1;
    }
    assert(a@ =~= b@);
    true
}

proof fn lemma_file_name_suffix(p: Seq<char>, j: int)
    requires
        0 <= j <= p.len(),
        forall|k: int| j <= k < p.len() ==> p[k] != '/',
    ensures
        file_name(p) == file_name(p.take(j)) + p.skip(j),
    decreases p.len() - j,
{
    if j < p.len() {
        lemma_file_name_suffix(p, j + 1);
        assert(p.take(j + 1).drop_last() =~= p.take(j));
        assert(p.take(j + 1).last() == p[j]);
        assert(file_name(p.take(j)) + p.skip(j) =~= file_name(p.take(j)).push(p[j]) + p.skip(
            j + 1,
        ));
    } else {
        assert(p.take(j) =~= p);
        assert(p.skip(j) =~= Seq::<char>::empty());
        assert(file_name(p) + Seq::<char>::empty() =~= file_name(p));
    }
}

/// The last component of a `/`-separated path.
pub fn path_file_name(path: &str) -> (r: &str)
    ensures
        r@ == file_name(path@),
{
    let n = path.unicode_len();
    let mut j: usize = n;
    while j > 0
        invariant
            n == path@.len(),
            j <= n,
            forall|k: int| j <= k < n ==> path@[k] != '/',
        ensures
            j == 0 || path@[j - 1] == '/',
        decreases j,
    {
        if path.get_char(j - 1) == '/' {
            break;
        }
        j = j - 1;
    }
    proof {
        lemma_file_name_suffix(path@, j as int);
        if j > 0 {
            assert(path@.take(j as int).last() == '/');
        } else {
            assert(path@.take(0) =~= Seq::<char>::empty());
        }
        assert(file_name(path@.take(j as int)) =~= Seq::<char>::empty());
        assert(Seq::<char>::empty() + path@.skip(j as int) =~= path@.skip(j as int));
    }
    path.substring_char(j, n)
}

/// The table that an archive entry at `path` holds, if it is one ingestion reads.
pub fn whitelisted_table(path: &str) -> (r: Option<DumpTable>)
    ensures
        r == whitelisted(path@),
{
    let f = path_file_name(path);
    let n = f.unicode_len();
    if n < 4 || !str_eq(f.substring_char(n - 4, n), ".csv") {
        return None;
    }
    let stem = f.substring_char(0, n - 4);
    assert(f@.skip(n - 4) =~= f@.subrange(n - 4, n as int));
    assert(f@.take(n - 4) =~= f@.subrange(0, n - 4));
    if str_eq(stem, "crates") {
        Some(DumpTable::Crates)
    } else if str_eq(stem, "crate_owners") {
        Some(DumpTable::CrateOwners)
    } else if str_eq(stem, "versions") {
        Some(DumpTable::Versions)
    } else if str_eq(stem, "version_authors") {
        Some(DumpTable::VersionAuthors)
    } else if str_eq(stem, "crates_categories") {
        Some(DumpTable::CratesCategories)
    } else if str_eq(stem, "categories") {
        Some(DumpTable::Categories)
    } else if str_eq(stem, "crates_keywords") {
        Some(DumpTable::CratesKeywords)
    } else if str_eq(stem, "keywords") {
        Some(DumpTable::Keywords)
    } else if str_eq(stem, "users") {
        Some(DumpTable::Users)
    } else if str_eq(stem, "teams") {
        Some(DumpTable::Teams)
    } else {
        None
    }
}

/// Ingestion cannot go on without the users and the teams table.
pub fn check_actor_tables(have_users: bool, have_teams: bool) -> (r: Result<()>)
    ensures
        r is Ok <==> have_users && have_teams,
        r matches Err(e) ==> e == Error::MissingDumpTable(
            if !have_users { DumpTable::Users } else { DumpTable::Teams },
        ),
{
    if !have_users {
        Err(Error::MissingDumpTable(DumpTable::Users))
    } else if !have_teams {
        Err(Error::MissingDumpTable(DumpTable::Teams))
    } else {
        Ok(())
    }
}

/// Whether an account is a person or a team.
#[derive(Debug, Clone, Copy, PartialEq, Eq, Structural)]
pub enum ActorKind {
    User,
    Team,
}

/// A row of the dump's users or teams table.
#[derive(Debug, Clone, PartialEq, Eq)]
pub struct ActorRow {
    pub id: u32,
    pub github_avatar_url: String,
    pub github_id: i32,
    pub github_login: String,
    pub name: Option<String>,
}

/// A user or a team of the registry.
#[derive(Debug, Clone, PartialEq, Eq)]
pub struct Actor {
    pub crates_io_id: u32,
    pub kind: ActorKind,
    pub github_avatar_url: String,
    pub github_id: i32,
    pub github_login: String,
    pub name: Option<String>,
}

/// The actor that a row of the table for `kind` describes.
pub open spec fn actor_of(row: ActorRow, kind: ActorKind) -> Actor {
    Actor {
        crates_io_id: row.id,
        kind,
        github_avatar_url: row.github_avatar_url,
        github_id: row.github_id,
        github_login: row.github_login,
        name: row.name,
    }
}

impl Actor {
    /// The actor that `row` of the table for `kind` describes.
    pub fn from_row(row: &ActorRow, kind: ActorKind) -> (r: Actor)
        ensures
            r == actor_of(*row, kind),
    {
        let name = match &row.name {
            Some(n) => Some(n.clone()),
            None => None,
        };
        Actor {
            crates_io_id: row.id,
            kind,
            github_avatar_url: row.github_avatar_url.clone(),
            github_id: row.github_id,
            github_login: row.github_login.clone(),
            name,
        }
    }
}

/// Appends the actors of `rows`, all of `kind`, to `actors`.
fn push_actors(actors: &mut Vec<Actor>, rows: &Vec<ActorRow>, kind: ActorKind)
    ensures
        final(actors)@.len() == old(actors)@.len() + rows@.len(),
        forall|i: int| 0 <= i < old(actors)@.len() ==> final(actors)@[i] == old(actors)@[i],
        forall|i: int|
            0 <= i < rows@.len() ==> final(actors)@[old(actors)@.len() + i] == actor_of(
                rows@[i],
                kind,
            ),
{
    let ghost start = actors@;
    let mut i: usize = 0;
    while i < rows.len()
        invariant
            i <= rows@.len(),
            actors@.len() == start.len() + i,
            forall|k: int| 0 <= k < start.len() ==> actors@[k] == start[k],
            forall|k: int| 0 <= k < i ==> actors@[start.len() + k] == actor_of(rows@[k], kind),
        decreases rows@.len() - i,
    {
        actors.push(Actor::from_row(&rows[i], kind));
        i = i + 1;
    }
}

/// Whether no two rows share an id.
pub open spec fn ids_distinct(rows: Seq<ActorRow>) -> bool {
    forall|i: int, j: int| 0 <= i < j < rows.len() ==> (#[trigger] rows[i]).id != (#[trigger] rows[j]).id
}

/// The users and then the teams of the dump as actors. Each table holds a row per
/// id, so each `(id, kind)` occurs once.
pub fn into_actors_by_id(users: &Vec<ActorRow>, teams: &Vec<ActorRow>) -> (r: Vec<Actor>)
    requires
        ids_distinct(users@),
        ids_distinct(teams@),
    ensures
        forall|i: int, j: int|
            0 <= i < j < r@.len() ==> !((#[trigger] r@[i]).crates_io_id == (#[trigger] r@[j]).crates_io_id
                && r@[i].kind == r@[j].kind),
        r@.len() == users@.len() + teams@.len(),
        forall|i: int| 0 <= i < users@.len() ==> r@[i] == actor_of(users@[i], ActorKind::User),
        forall|i: int|
            0 <= i < teams@.len() ==> r@[users@.len() + i] == actor_of(teams@[i], ActorKind::Team),
{
    let mut actors: Vec<Actor> = Vec::new();
    push_actors(&mut actors, users, ActorKind::User);
    push_actors(&mut actors, teams, ActorKind::Team);
    let ghost u = users@.len();
    assert forall|i: int, j: int|
        0 <= i < j < actors@.len() implies !((#[trigger] actors@[i]).crates_io_id == (
        #[trigger] actors@[j]).crates_io_id && actors@[i].kind == actors@[j].kind) by {
        if j < u {
            assert(users@[i].id != users@[j].id);
        } else if i >= u {
            assert(actors@[i] == actor_of(teams@[i - u], ActorKind::Team));
            assert(actors@[j] == actor_of(teams@[j - u], ActorKind::Team));
            assert(teams@[i - u].id != teams@[j - u].id);
        } else {
            assert(actors@[j] == actor_of(teams@[j - u], ActorKind::Team));
        }
    }
    actors
}

/// Where the registry publishes its database dump.
pub const DB_DUMP_URL: &'static str = "https://static.crates.io/db-dump.tar.gz";

pub open spec fn dump_task_key_of(day: Seq<char>) -> Seq<char> {
    "crates-io-db-dump"@ + sep() + day
}

/// The ledger key of the dump ingestion of `day` (`YYYY-MM-DD`).
pub fn dump_task_key(day: &str) -> (r: String)
    ensures
        r@ == dump_task_key_of(day@),
{
    let mut key = String::new();
    key.append("crates-io-db-dump");
    push_sep(&mut key);
    key.append(day);
    assert(key@ =~= dump_task_key_of(day@));
    key
}

/// The file name of the dump of `day` in the assets directory.
pub fn dump_file_name(day: &str) -> (r: String)
    ensures
        r@ == day@ + "-crates-io-db-dump.tar.gz"@,
{
    let mut name = String::new();
    name.append(day);
    name.append("-crates-io-db-dump.tar.gz");
    assert(name@ =~= day@ + "-crates-io-db-dump.tar.gz"@);
    name
}

/// Whether today's dump is fetched and ingested: unless it is running in this
/// process. Ingestion is idempotent, so a completed one runs again.
pub fn dump_should_run(existing: Option<&Task>, startup: Timestamp) -> (r: bool)
    requires
        startup.wf(),
        existing matches Some(t) ==> t.stored_at.wf(),
    ensures
        r == match existing {
            None => true,
            Some(t) => t.spec_can_be_started(startup) || t.state@ is Complete,
        },
{
    match existing {
        None => true,
        Some(t) => t.can_be_started(startup) || t.state.is_complete(),
    }
}

/// A file for the download workers to fetch.
#[derive(Debug, Clone)]
pub struct DownloadRequest {
    pub output_file_path: String,
    pub progress_name: String,
    pub task_key: String,
    pub crate_name_and_version: Option<(String, String)>,
    pub kind: String,
    pub url: String,
}

impl DownloadRequest {
    /// The request that fetches the dump of `day` to `output_file_path`.
    pub fn for_db_dump(output_file_path: String, day: &str) -> (r: DownloadRequest)
        ensures
            r.output_file_path == output_file_path,
            r.progress_name@ == "db dump"@,
            r.task_key@ == dump_task_key_of(day@),
            r.crate_name_and_version is None,
            r.kind@ == "tar.gz"@,
            r.url@ == DB_DUMP_URL@,
    {
        DownloadRequest {
            output_file_path,
            progress_name: "db dump".to_owned(),
            task_key: dump_task_key(day),
            crate_name_and_version: None,
            kind: "tar.gz".to_owned(),
            url: DB_DUMP_URL.to_owned(),
        }
    }
}

} // verus!
