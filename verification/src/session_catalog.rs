//! Looking sessions up in the catalog, and where an archived session goes.
//!
//! The catalog itself is kept by the caller, who hands in its entries in
//! catalog order, newest first. Paths are text with `/` between their parts;
//! a path below the home directory is given by its parts.

use vstd::prelude::*;
use vstd::string::StringExecFns;
use crate::account_id::str_view;
use crate::text::{
    char_to_ascii_lowercase, chars_of, join_path, joined_path, lowered, text_equal,
};

verus! {

/// The directory of live sessions, below the home directory.
pub const SESSIONS_SUBDIR: &'static str = "sessions";

/// The directory of archived sessions, below the home directory.
pub const ARCHIVED_SESSIONS_SUBDIR: &'static str = "archived_sessions";

/// Which front end a session was started from.
#[derive(Clone, Copy, Debug, PartialEq, Eq, Structural)]
pub enum SessionSource {
    Cli,
    VSCode,
    Exec,
    Mcp,
    Unknown,
}

/// One session of the catalog, as far as lookups read it.
#[derive(Clone, Debug, PartialEq, Eq)]
pub struct SessionIndexEntry {
    /// The session's identifier in its hyphenated, lower-case form.
    pub session_id: String,
    /// The rollout file, relative to the home directory.
    pub rollout_path: String,
    /// The working directory of the session.
    pub cwd_real: String,
    /// The root of the session's git project, if it had one.
    pub git_project_root: Option<String>,
    pub session_source: SessionSource,
    pub user_message_count: usize,
    pub archived: bool,
    pub deleted: bool,
}

/// What to look for in the catalog.
#[derive(Clone, Debug, Default)]
pub struct SessionQuery {
    /// Only sessions of this working directory.
    pub cwd: Option<String>,
    /// Only sessions of this git project.
    pub git_root: Option<String>,
    /// Only sessions from these front ends; none named means all.
    pub sources: Vec<SessionSource>,
    /// Only sessions with at least this many user messages.
    pub min_user_messages: usize,
    /// Archived sessions too.
    pub include_archived: bool,
    /// Deleted sessions too.
    pub include_deleted: bool,
    /// No more rows than this.
    pub limit: Option<usize>,
}

impl SessionQuery {
    /// The query lets the entry through.
    pub open spec fn accepts(self, entry: SessionIndexEntry) -> bool {
        &&& self.include_archived || !entry.archived
        &&& self.include_deleted || !entry.deleted
        &&& self.cwd matches Some(cwd) ==> entry.cwd_real@ == cwd@
        &&& self.git_root matches Some(root) ==> (entry.git_project_root matches Some(found)
            && found@ == root@)
        &&& self.sources@.len() == 0 || self.sources@.contains(entry.session_source)
        &&& entry.user_message_count >= self.min_user_messages
    }

    /// The number of rows at which a lookup stops, if it stops early. A
    /// lookup hands out its first row before it looks at the limit, so a
    /// limit of none still lets one row through.
    pub open spec fn row_cap(self) -> Option<int> {
        match self.limit {
            Some(limit) => Some(if limit == 0 {
                1
            } else {
                limit as int
            }),
            None => None,
        }
    }
}

/// The places of the entries that the query lets through, among the first
/// `upto` entries, in catalog order.
pub open spec fn accepted_rows(query: SessionQuery, entries: Seq<SessionIndexEntry>, upto: int)
    -> Seq<usize>
    decreases upto,
{
    if upto <= 0 {
        Seq::empty()
    } else {
        let before = accepted_rows(query, entries, upto - 1);
        if query.accepts(entries[upto - 1]) {
            before.push((upto - 1) as usize)
        } else {
            before
        }
    }
}

/// The rows of a lookup: the places of the entries that the query lets
/// through, in catalog order, up to the query's cap.
pub open spec fn query_rows(query: SessionQuery, entries: Seq<SessionIndexEntry>) -> Seq<usize> {
    let all = accepted_rows(query, entries, entries.len() as int);
    match query.row_cap() {
        Some(cap) => if all.len() > cap {
            all.take(cap)
        } else {
            all
        },
        None => all,
    }
}

proof fn lemma_accepted_rows_grow(
    query: SessionQuery,
    entries: Seq<SessionIndexEntry>,
    from: int,
    to: int,
)
    requires
        0 <= from <= to,
    ensures
        accepted_rows(query, entries, from).len() <= accepted_rows(query, entries, to).len(),
        accepted_rows(query, entries, to).take(accepted_rows(query, entries, from).len() as int)
            == accepted_rows(query, entries, from),
    decreases to - from,
{
    let short = accepted_rows(query, entries, from);
    if from == to {
        assert(short.take(short.len() as int) =~= short);
    } else {
        lemma_accepted_rows_grow(query, entries, from, to - 1);
        let middle = accepted_rows(query, entries, to - 1);
        let long = accepted_rows(query, entries, to);
        assert(long.take(short.len() as int) =~= middle.take(short.len() as int));
    }
}

/// Tells whether the query names the front end, or names none at all.
fn source_wanted(sources: &Vec<SessionSource>, source: SessionSource) -> (r: bool)
    ensures
        r == (sources@.len() == 0 || sources@.contains(source)),
{
    if sources.len() == 0 {
        return true;
    }
    for i in 0..sources.len()
        invariant
            forall|k: int| 0 <= k < i ==> sources[k] != source,
    {
        if sources[i] == source {
            return true;
        }
    }
    false
}

/// Tells whether the query lets the entry through.
pub fn query_accepts(query: &SessionQuery, entry: &SessionIndexEntry) -> (r: bool)
    ensures
        r == query.accepts(*entry),
{
    if !query.include_archived && entry.archived {
        return false;
    }
    if !query.include_deleted && entry.deleted {
        return false;
    }
    if let Some(cwd) = &query.cwd {
        if !text_equal(entry.cwd_real.as_str(), cwd.as_str()) {
            return false;
        }
    }
    if let Some(root) = &query.git_root {
        let same = match &entry.git_project_root {
            Some(found) => text_equal(found.as_str(), root.as_str()),
            None => false,
        };
        if !same {
            return false;
        }
    }
    if !source_wanted(&query.sources, entry.session_source) {
        return false;
    }
    entry.user_message_count >= query.min_user_messages
}

/// `prefix` is how `text` starts.
pub open spec fn starts_with(text: Seq<char>, prefix: Seq<char>) -> bool {
    prefix.len() <= text.len() && text.take(prefix.len() as int) == prefix
}

/// The identifier starts with the prefix, whatever the case of their ASCII
/// letters.
pub open spec fn id_has_prefix(session_id: Seq<char>, id_prefix: Seq<char>) -> bool {
    starts_with(lowered(session_id), lowered(id_prefix))
}

/// Tells whether one text starts with another, whatever the case of their
/// ASCII letters.
fn starts_with_ignoring_case(text: &Vec<char>, prefix: &Vec<char>) -> (r: bool)
    ensures
        r == starts_with(lowered(text@), lowered(prefix@)),
{
    if prefix.len() > text.len() {
        return false;
    }
    for i in 0..prefix.len()
        invariant
            prefix.len() <= text.len(),
            forall|k: int| 0 <= k < i ==> lowered(text@)[k] == lowered(prefix@)[k],
    {
        if char_to_ascii_lowercase(text[i]) != char_to_ascii_lowercase(prefix[i]) {
            assert(lowered(text@).take(prefix.len() as int)[i as int] != lowered(prefix@)[i as int]);
            return false;
        }
    }
    assert(lowered(text@).take(prefix.len() as int) =~= lowered(prefix@));
    true
}

/// Returns the rollout file of the entry, below the home directory
/// `code_home`.
pub fn entry_to_rollout_path(code_home: &str, entry: &SessionIndexEntry) -> (path: String)
    ensures
        path@ == joined_path(code_home@, entry.rollout_path@),
{
    join_path(code_home, entry.rollout_path.as_str())
}

/// Why a session cannot be archived.
#[derive(Clone, Copy, Debug, PartialEq, Eq, Structural)]
pub enum ArchiveError {
    /// The name of the rollout file ends in another session's identifier.
    IdMismatch,
    /// The rollout file lies neither among the live sessions nor among the
    /// archived ones.
    OutsideSessions,
}

impl ArchiveError {
    /// Returns the text of the error.
    pub fn message(&self) -> (text: String)
        ensures
            text@ == match self {
                ArchiveError::IdMismatch => "conversation_id does not match rollout_path"@,
                ArchiveError::OutsideSessions =>
                    "rollout_path must be under sessions/ or archived_sessions/"@,
            },
    {
        match self {
            ArchiveError::IdMismatch => String::from_str(
                "conversation_id does not match rollout_path",
            ),
            ArchiveError::OutsideSessions => String::from_str(
                "rollout_path must be under sessions/ or archived_sessions/",
            ),
        }
    }
}

/// Where an archived session goes.
#[derive(Clone, Debug, PartialEq, Eq)]
pub struct ArchivePlan {
    /// The parts of the rollout file's new path, below the home directory.
    pub new_rel: Vec<String>,
    /// The file lies among the archived sessions already and is not moved.
    pub already_archived: bool,
}

/// The parts of a path as mathematical values.
pub open spec fn part_views(parts: Seq<String>) -> Seq<Seq<char>> {
    parts.map_values(|p: String| p@)
}

/// What follows the last dash of `stem`, if `stem` holds a dash.
pub open spec fn after_last_dash(stem: Seq<char>) -> Option<Seq<char>>
    decreases stem.len(),
{
    if stem.len() == 0 {
        None
    } else if stem.last() == '-' {
        Some(Seq::empty())
    } else {
        match after_last_dash(stem.drop_last()) {
            Some(tail) => Some(tail.push(stem.last())),
            None => None,
        }
    }
}

/// The name of the rollout file speaks against the session: it ends, after
/// its last dash, in something other than the session's identifier.
pub open spec fn names_other_session(file_stem: Option<Seq<char>>, session_id: Seq<char>) -> bool {
    &&& file_stem matches Some(stem)
    &&& after_last_dash(stem) matches Some(tail)
    &&& lowered(tail) != lowered(session_id)
}

/// What is decided about archiving a rollout file that lies at `rel` below
/// the home directory.
///
/// A file whose name speaks against the session is refused. A file among the
/// live sessions goes to the same place among the archived ones; a file
/// among the archived sessions stays where it is; any other file is refused.
pub open spec fn archive_decision(
    rel: Seq<Seq<char>>,
    file_stem: Option<Seq<char>>,
    session_id: Seq<char>,
) -> Result<(Seq<Seq<char>>, bool), ArchiveError> {
    if names_other_session(file_stem, session_id) {
        Err(ArchiveError::IdMismatch)
    } else if rel.len() > 0 && rel[0] == SESSIONS_SUBDIR@ {
        Ok((seq![ARCHIVED_SESSIONS_SUBDIR@] + rel.skip(1), false))
    } else if rel.len() > 0 && rel[0] == ARCHIVED_SESSIONS_SUBDIR@ {
        Ok((seq![ARCHIVED_SESSIONS_SUBDIR@] + rel.skip(1), true))
    } else {
        Err(ArchiveError::OutsideSessions)
    }
}

/// Returns what follows the last dash of `stem`.
fn tail_after_last_dash(stem: &Vec<char>) -> (r: Option<(usize, usize)>)
    ensures
        match r {
            Some((from, to)) => from <= to && to == stem.len() && after_last_dash(stem@) == Some(
                stem@.subrange(from as int, to as int),
            ),
            None => after_last_dash(stem@) is None,
        },
{
    let mut i: usize = stem.len();
    proof {
        assert(stem@.take(stem.len() as int) =~= stem@);
    }
    while i > 0
        invariant
            i <= stem.len(),
            forall|k: int| i <= k < stem.len() ==> stem[k] != '-',
        decreases i,
    {
        if stem[i - 1] == '-' {
            proof {
                lemma_tail_after_dash(stem@, i as int);
            }
            return Some((i, stem.len()));
        }
        i = i - 1;
    }
    proof {
        lemma_no_dash_no_tail(stem@);
    }
    None
}

proof fn lemma_no_dash_no_tail(stem: Seq<char>)
    requires
        forall|k: int| 0 <= k < stem.len() ==> stem[k] != '-',
    ensures
        after_last_dash(stem) is None,
    decreases stem.len(),
{
    if stem.len() > 0 {
        lemma_no_dash_no_tail(stem.drop_last());
    }
}

proof fn lemma_tail_after_dash(stem: Seq<char>, from: int)
    requires
        0 < from <= stem.len(),
        stem[from - 1] == '-',
        forall|k: int| from <= k < stem.len() ==> stem[k] != '-',
    ensures
        after_last_dash(stem) == Some(stem.subrange(from, stem.len() as int)),
    decreases stem.len(),
{
    if stem.len() == from {
        assert(stem.subrange(from, stem.len() as int) =~= Seq::empty());
    } else {
        lemma_tail_after_dash(stem.drop_last(), from);
        assert(stem.subrange(from, stem.len() as int) =~= stem.drop_last().subrange(
            from,
            stem.len() - 1,
        ).push(stem.last()));
    }
}

/// Tells whether two texts are the same, whatever the case of their ASCII
/// letters.
fn same_ignoring_case(a: &Vec<char>, from: usize, b: &Vec<char>) -> (r: bool)
    requires
        from <= a.len(),
    ensures
        r == (lowered(a@.subrange(from as int, a.len() as int)) == lowered(b@)),
{
    let ghost tail = a@.subrange(from as int, a.len() as int);
    if a.len() - from != b.len() {
        assert(lowered(tail).len() != lowered(b@).len());
        return false;
    }
    for i in 0..b.len()
        invariant
            from <= a.len(),
            a.len() - from == b.len(),
            tail == a@.subrange(from as int, a.len() as int),
            forall|k: int| 0 <= k < i ==> lowered(tail)[k] == lowered(b@)[k],
    {
        if char_to_ascii_lowercase(a[from + i]) != char_to_ascii_lowercase(b[i]) {
            assert(lowered(tail)[i as int] != lowered(b@)[i as int]);
            return false;
        }
    }
    assert(lowered(tail) =~= lowered(b@));
    true
}

/// Decides where the rollout file of a session goes when the session is
/// archived.
///
/// `rel` holds the parts of the file's path below the home directory,
/// `file_stem` the file's name without its ending, and `session_id` the
/// session's identifier in its hyphenated form.
fn plan_archive(rel: &Vec<String>, file_stem: Option<&str>, session_id: &str) -> (plan: Result<
    ArchivePlan,
    ArchiveError,
>)
    ensures
        match plan {
            Ok(p) => archive_decision(part_views(rel@), str_view(file_stem), session_id@) == Ok::<
                (Seq<Seq<char>>, bool),
                ArchiveError,
            >((part_views(p.new_rel@), p.already_archived)),
            Err(e) => archive_decision(part_views(rel@), str_view(file_stem), session_id@) == Err::<
                (Seq<Seq<char>>, bool),
                ArchiveError,
            >(e),
        },
{
    if let Some(stem) = file_stem {
        let chars = chars_of(stem);
        if let Some((from, _)) = tail_after_last_dash(&chars) {
            let id = chars_of(session_id);
            if !same_ignoring_case(&chars, from, &id) {
                return Err(ArchiveError::IdMismatch);
            }
        }
    }
    if rel.len() == 0 {
        return Err(ArchiveError::OutsideSessions);
    }
    assert(part_views(rel@)[0] == rel[0]@);
    let live = text_equal(rel[0].as_str(), SESSIONS_SUBDIR);
    let already_archived = !live && text_equal(rel[0].as_str(), ARCHIVED_SESSIONS_SUBDIR);
    if !live && !already_archived {
        return Err(ArchiveError::OutsideSessions);
    }
    let mut new_rel: Vec<String> = Vec::new();
    new_rel.push(String::from_str(ARCHIVED_SESSIONS_SUBDIR));
    for i in 1..rel.len()
        invariant
            rel.len() > 0,
            part_views(new_rel@) == seq![ARCHIVED_SESSIONS_SUBDIR@] + part_views(rel@).subrange(
                1,
                i as int,
            ),
    {
        let ghost before = part_views(new_rel@);
        new_rel.push(rel[i].clone());
        assert(part_views(new_rel@) =~= before.push(rel[i as int]@));
        assert(part_views(rel@).subrange(1, i + 1) =~= part_views(rel@).subrange(1, i as int).push(
            rel[i as int]@,
        ));
    }
    assert(part_views(rel@).subrange(1, rel.len() as int) =~= part_views(rel@).skip(1));
    Ok(ArchivePlan { new_rel, already_archived })
}

/// The catalog as it was read: the home directory and the entries, newest
/// first.
#[derive(Clone, Debug)]
pub struct SessionCatalog {
    pub code_home: String,
    pub entries: Vec<SessionIndexEntry>,
}

impl SessionCatalog {
    /// Makes a catalog of the entries below the home directory `code_home`.
    pub fn new(code_home: String, entries: Vec<SessionIndexEntry>) -> (catalog: SessionCatalog)
        ensures
            catalog.code_home == code_home,
            catalog.entries == entries,
    {
        SessionCatalog { code_home, entries }
    }

    /// Looks the catalog up: returns the places of the entries that the
    /// query lets through, in catalog order, and stops at the query's cap.
    pub fn query(&self, query: &SessionQuery) -> (rows: Vec<usize>)
        ensures
            rows@ == query_rows(*query, self.entries@),
            forall|k: int| 0 <= k < rows.len() ==> rows[k] < self.entries.len(),
    {
        let mut rows: Vec<usize> = Vec::new();
        let mut i: usize = 0;
        while i < self.entries.len()
            invariant_except_break
                i <= self.entries.len(),
                rows@ == accepted_rows(*query, self.entries@, i as int),
                query.row_cap() matches Some(cap) ==> rows.len() < cap,
            invariant
                forall|k: int| 0 <= k < rows.len() ==> rows[k] < self.entries.len(),
            ensures
                rows@ == query_rows(*query, self.entries@),
            decreases self.entries.len() - i,
        {
            if query_accepts(query, &self.entries[i]) {
                rows.push(i);
                if let Some(limit) = query.limit {
                    if rows.len() >= limit {
                        proof {
                            lemma_accepted_rows_grow(
                                *query,
                                self.entries@,
                                i + 1,
                                self.entries.len() as int,
                            );
                        }
                        break;
                    }
                }
            }
            i = i + 1;
        }
        rows
    }

    /// Returns the place of the newest entry that the query lets through.
    pub fn get_latest(&self, query: &SessionQuery) -> (row: Option<usize>)
        ensures
            match row {
                Some(i) => i < self.entries.len() && query.accepts(self.entries[i as int])
                    && forall|k: int| 0 <= k < i ==> !query.accepts(#[trigger] self.entries[k]),
                None => forall|k: int|
                    0 <= k < self.entries.len() ==> !query.accepts(#[trigger] self.entries[k]),
            },
    {
        for i in 0..self.entries.len()
            invariant
                forall|k: int| 0 <= k < i ==> !query.accepts(#[trigger] self.entries[k]),
        {
            if query_accepts(query, &self.entries[i]) {
                return Some(i);
            }
        }
        None
    }

    /// Returns the place of the first entry whose identifier starts with
    /// `id_prefix`, whatever the case of the letters.
    pub fn find_by_id(&self, id_prefix: &str) -> (row: Option<usize>)
        ensures
            match row {
                Some(i) => i < self.entries.len() && id_has_prefix(
                    self.entries[i as int].session_id@,
                    id_prefix@,
                ) && forall|k: int|
                    0 <= k < i ==> !id_has_prefix(
                        (#[trigger] self.entries[k]).session_id@,
                        id_prefix@,
                    ),
                None => forall|k: int|
                    0 <= k < self.entries.len() ==> !id_has_prefix(
                        (#[trigger] self.entries[k]).session_id@,
                        id_prefix@,
                    ),
            },
    {
        let needle = chars_of(id_prefix);
        for i in 0..self.entries.len()
            invariant
                needle@ == id_prefix@,
                forall|k: int|
                    0 <= k < i ==> !id_has_prefix(
                        (#[trigger] self.entries[k]).session_id@,
                        id_prefix@,
                    ),
        {
            let id = chars_of(self.entries[i].session_id.as_str());
            if starts_with_ignoring_case(&id, &needle) {
                return Some(i);
            }
        }
        None
    }

    /// Returns the rollout file of the entry, below the catalog's home
    /// directory.
    pub fn entry_rollout_path(&self, entry: &SessionIndexEntry) -> (path: String)
        ensures
            path@ == joined_path(self.code_home@, entry.rollout_path@),
    {
        entry_to_rollout_path(self.code_home.as_str(), entry)
    }

    /// Decides where the rollout file of a session goes when the session is
    /// archived.
    ///
    /// `rel` holds the parts of the file's path below the home directory,
    /// `file_stem` the file's name without its ending, and `session_id` the
    /// session's identifier in its hyphenated form.
    pub fn archive_conversation(
        &self,
        session_id: &str,
        rel: &Vec<String>,
        file_stem: Option<&str>,
    ) -> (plan: Result<ArchivePlan, ArchiveError>)
        ensures
            match plan {
                Ok(p) => archive_decision(part_views(rel@), str_view(file_stem), session_id@)
                    == Ok::<(Seq<Seq<char>>, bool), ArchiveError>(
                    (part_views(p.new_rel@), p.already_archived),
                ),
                Err(e) => archive_decision(part_views(rel@), str_view(file_stem), session_id@)
                    == Err::<(Seq<Seq<char>>, bool), ArchiveError>(e),
            },
    {
        plan_archive(rel, file_stem, session_id)
    }
}

} // verus!
