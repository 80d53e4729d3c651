use magik_core::session_catalog::{
    entry_to_rollout_path, query_accepts, ArchiveError, ArchivePlan, SessionCatalog,
    SessionIndexEntry, SessionQuery, SessionSource, ARCHIVED_SESSIONS_SUBDIR, SESSIONS_SUBDIR,
};

fn entry(id: &str, cwd: &str, source: SessionSource, messages: usize) -> SessionIndexEntry {
    SessionIndexEntry {
        session_id: id.to_string(),
        rollout_path: format!("sessions/2025/01/01/rollout-{id}.jsonl"),
        cwd_real: cwd.to_string(),
        git_project_root: None,
        session_source: source,
        user_message_count: messages,
        archived: false,
        deleted: false,
    }
}

fn catalog() -> SessionCatalog {
    let mut archived = entry("0000aaaa-0000-4000-8000-000000000003", "/work/a", SessionSource::Cli, 4);
    archived.archived = true;
    let mut deleted = entry("0000bbbb-0000-4000-8000-000000000004", "/work/a", SessionSource::Cli, 4);
    deleted.deleted = true;
    let mut rooted = entry("abcd1234-0000-4000-8000-000000000005", "/work/b/sub", SessionSource::Exec, 1);
    rooted.git_project_root = Some("/work/b".to_string());
    SessionCatalog::new(
        "/home/me/.code".to_string(),
        vec![
            entry("ABCDEF00-0000-4000-8000-000000000001", "/work/a", SessionSource::Cli, 2),
            entry("abcdef11-0000-4000-8000-000000000002", "/work/b", SessionSource::VSCode, 0),
            archived,
            deleted,
            rooted,
            entry("ffff0000-0000-4000-8000-000000000006", "/work/a", SessionSource::Mcp, 9),
        ],
    )
}

#[test]
fn default_query_lists_live_sessions_in_catalog_order() {
    let rows = catalog().query(&SessionQuery::default());
    assert_eq!(rows, vec![0, 1, 4, 5]);
}

#[test]
fn query_can_include_archived_and_deleted_sessions() {
    let mut query = SessionQuery::default();
    query.include_archived = true;
    assert_eq!(catalog().query(&query), vec![0, 1, 2, 4, 5]);
    query.include_deleted = true;
    assert_eq!(catalog().query(&query), vec![0, 1, 2, 3, 4, 5]);
    query.include_archived = false;
    assert_eq!(catalog().query(&query), vec![0, 1, 3, 4, 5]);
}

#[test]
fn query_filters_by_directory_project_source_and_messages() {
    let mut query = SessionQuery::default();
    query.cwd = Some("/work/a".to_string());
    assert_eq!(catalog().query(&query), vec![0, 5]);

    let mut query = SessionQuery::default();
    query.git_root = Some("/work/b".to_string());
    assert_eq!(catalog().query(&query), vec![4]);

    let mut query = SessionQuery::default();
    query.sources = vec![SessionSource::VSCode, SessionSource::Mcp];
    assert_eq!(catalog().query(&query), vec![1, 5]);
    query.sources = vec![SessionSource::Unknown];
    assert_eq!(catalog().query(&query), Vec::<usize>::new());

    let mut query = SessionQuery::default();
    query.min_user_messages = 2;
    assert_eq!(catalog().query(&query), vec![0, 5]);
    query.cwd = Some("/work/a".to_string());
    query.sources = vec![SessionSource::Mcp];
    assert_eq!(catalog().query(&query), vec![5]);
}

#[test]
fn query_stops_at_its_limit() {
    let mut query = SessionQuery::default();
    query.limit = Some(2);
    assert_eq!(catalog().query(&query), vec![0, 1]);
    query.limit = Some(1);
    assert_eq!(catalog().query(&query), vec![0]);
    // The first row is handed out before the limit is looked at.
    query.limit = Some(0);
    assert_eq!(catalog().query(&query), vec![0]);
    query.limit = Some(100);
    assert_eq!(catalog().query(&query), vec![0, 1, 4, 5]);
}

#[test]
fn latest_is_the_first_row_of_the_query() {
    let catalog = catalog();
    assert_eq!(catalog.get_latest(&SessionQuery::default()), Some(0));
    let mut query = SessionQuery::default();
    query.sources = vec![SessionSource::Exec];
    assert_eq!(catalog.get_latest(&query), Some(4));
    query.limit = Some(7);
    assert_eq!(catalog.get_latest(&query), Some(4));
    query.min_user_messages = 50;
    assert_eq!(catalog.get_latest(&query), None);
    assert!(query_accepts(&SessionQuery::default(), &catalog.entries[0]));
    assert!(!query_accepts(&SessionQuery::default(), &catalog.entries[2]));
}

#[test]
fn sessions_are_found_by_a_prefix_of_their_id_in_any_case() {
    let catalog = catalog();
    assert_eq!(catalog.find_by_id("abcdef"), Some(0));
    assert_eq!(catalog.find_by_id("ABCDEF1"), Some(1));
    assert_eq!(catalog.find_by_id("abcd1"), Some(4));
    assert_eq!(catalog.find_by_id("0000"), Some(2));
    assert_eq!(catalog.find_by_id(""), Some(0));
    assert_eq!(catalog.find_by_id("ffff0000-0000-4000-8000-000000000006"), Some(5));
    assert_eq!(catalog.find_by_id("ffff0000-0000-4000-8000-0000000000067"), None);
    assert_eq!(catalog.find_by_id("zzz"), None);
}

#[test]
fn rollout_path_lies_below_the_home_directory() {
    let catalog = catalog();
    let entry = &catalog.entries[5];
    assert_eq!(
        catalog.entry_rollout_path(entry),
        "/home/me/.code/sessions/2025/01/01/rollout-ffff0000-0000-4000-8000-000000000006.jsonl"
    );
    assert_eq!(entry_to_rollout_path("/x/", entry), format!("/x/{}", entry.rollout_path));
}

fn parts(path: &str) -> Vec<String> {
    path.split('/').map(|part| part.to_string()).collect()
}

#[test]
fn live_session_is_archived_to_the_same_place_among_the_archived() {
    assert_eq!(SESSIONS_SUBDIR, "sessions");
    assert_eq!(ARCHIVED_SESSIONS_SUBDIR, "archived_sessions");
    let plan = catalog().archive_conversation(
        "abc123",
        &parts("sessions/2025/01/01/rollout-abc123.jsonl"),
        Some("rollout-abc123"),
    );
    assert_eq!(
        plan,
        Ok(ArchivePlan {
            new_rel: parts("archived_sessions/2025/01/01/rollout-abc123.jsonl"),
            already_archived: false,
        })
    );
}

#[test]
fn archived_session_stays_where_it_is() {
    let plan = catalog().archive_conversation(
        "ABC123",
        &parts("archived_sessions/rollout-abc123.jsonl"),
        Some("rollout-abc123"),
    );
    assert_eq!(
        plan,
        Ok(ArchivePlan {
            new_rel: parts("archived_sessions/rollout-abc123.jsonl"),
            already_archived: true,
        })
    );
}

#[test]
fn file_named_for_another_session_is_refused() {
    let plan = catalog().archive_conversation(
        "abc123",
        &parts("sessions/rollout-other.jsonl"),
        Some("rollout-other"),
    );
    assert_eq!(plan, Err(ArchiveError::IdMismatch));
    assert_eq!(
        ArchiveError::IdMismatch.message(),
        "conversation_id does not match rollout_path"
    );
    // Only what follows the last dash is compared.
    let plan = catalog().archive_conversation(
        "0000aaaa-0000-4000-8000-000000000003",
        &parts("sessions/rollout-0000aaaa-0000-4000-8000-000000000003.jsonl"),
        Some("rollout-0000aaaa-0000-4000-8000-000000000003"),
    );
    assert_eq!(plan, Err(ArchiveError::IdMismatch));
    // A name without a dash, or no name at all, speaks against nothing.
    let plan = catalog().archive_conversation("abc123", &parts("sessions/plain.jsonl"), Some("plain"));
    assert!(plan.is_ok());
    let plan = catalog().archive_conversation("abc123", &parts("sessions/plain.jsonl"), None);
    assert!(plan.is_ok());
    let plan = catalog().archive_conversation("", &parts("sessions/x-.jsonl"), Some("x-"));
    assert!(plan.is_ok());
}

#[test]
fn file_outside_the_session_directories_is_refused() {
    let plan = catalog().archive_conversation(
        "abc123",
        &parts("elsewhere/rollout-abc123.jsonl"),
        Some("rollout-abc123"),
    );
    assert_eq!(plan, Err(ArchiveError::OutsideSessions));
    assert_eq!(
        ArchiveError::OutsideSessions.message(),
        "rollout_path must be under sessions/ or archived_sessions/"
    );
    let plan = catalog().archive_conversation("abc123", &Vec::new(), None);
    assert_eq!(plan, Err(ArchiveError::OutsideSessions));
    // The mismatch is found before the place is looked at.
    let plan = catalog().archive_conversation("abc123", &parts("elsewhere/a-b"), Some("a-b"));
    assert_eq!(plan, Err(ArchiveError::IdMismatch));
}
