use epi_ingest::{
    build_artifacts, chunk_ids, civil_seconds, days_from_civil, extract_inspections, extract_news,
    extract_patients, extract_status, name_matches_pattern, resolve_message_instant,
    resolve_message_instant_here, resolve_value, select_attachment, sort_ids_descending,
    validate_args, AppMode, Args, Attributes, Candidate, Cell, ConfigError, Credentials,
    ExtractError, LastUpdate, LoginMethod, MailClientError, OAuth2, RunConfig, SelectionOutcome,
    SheetKind, UtcTime,
};

fn num(v: u32) -> Cell {
    Cell::Number { value: v, date: UtcTime { day: 0, sec_of_day: 0 } }
}

fn stamp(day: i64) -> Cell {
    Cell::Stamp { date: UtcTime { day, sec_of_day: 0 } }
}

fn text(s: &str) -> Cell {
    Cell::Text { text: s.to_string() }
}

fn civil(year: u32, month: u32, day: u32, hour: u32, minute: u32, second: u32) -> epi_ingest::CivilTime {
    epi_ingest::CivilTime { year, month, day, hour, minute, second }
}

#[test]
fn days_from_civil_known_dates() {
    assert_eq!(days_from_civil(1970, 1, 1), 0);
    assert_eq!(days_from_civil(1970, 1, 2), 1);
    assert_eq!(days_from_civil(2000, 3, 1), 11017);
    assert_eq!(days_from_civil(2023, 5, 1), 19478);
    assert_eq!(days_from_civil(1969, 12, 31), -1);
}

#[test]
fn resolver_ahead_of_gmt() {
    // declared offset +09:00 under a runtime offset of +00:00
    let t = civil(2023, 5, 1, 10, 0, 0);
    let r = resolve_message_instant(t, false, 9, 0, 0);
    assert_eq!(r, civil_seconds(civil(2023, 5, 1, 1, 0, 0)));
    assert_eq!(r, 1682902800);
}

#[test]
fn resolver_behind_gmt() {
    // a zone behind GMT is added back
    let t = civil(2023, 5, 1, 10, 0, 0);
    let r = resolve_message_instant(t, true, 5, 30, 0);
    assert_eq!(r, civil_seconds(civil(2023, 5, 1, 15, 30, 0)));
}

#[test]
fn resolver_applies_runtime_offset() {
    let t = civil(2023, 5, 1, 10, 0, 0);
    let r = resolve_message_instant(t, false, 9, 0, 3600);
    assert_eq!(r, civil_seconds(civil(2023, 5, 1, 2, 0, 0)));
}

#[test]
fn resolver_here_stays_within_a_day_of_utc() {
    let t = civil(2023, 5, 1, 10, 0, 0);
    let base = resolve_message_instant(t, false, 9, 0, 0);
    let r = resolve_message_instant_here(t, false, 9, 0);
    assert!(r > base - 86400 && r < base + 86400);
}

#[test]
fn pattern_accepts_dated_names() {
    assert!(name_matches_pattern(b"20230501data.xlsx"));
    assert!(name_matches_pattern(b"mail-20230501data.xlsx"));
    assert!(name_matches_pattern(b"x20230501data.xlsxy"));
}

#[test]
fn pattern_rejects_other_names() {
    assert!(!name_matches_pattern(b"report.xlsx"));
    assert!(!name_matches_pattern(b"2023050data.xlsx"));
    assert!(!name_matches_pattern(b"20230501data_xlsx"));
    assert!(!name_matches_pattern(b"20230501data.xls"));
    assert!(!name_matches_pattern(b""));
}

fn cand(name: &[u8], instant: i64) -> Candidate {
    Candidate { name: name.to_vec(), instant }
}

#[test]
fn selection_is_first_match() {
    // only the second of two differently-named attachments matches
    let cands = vec![cand(b"notes.txt", 500), cand(b"20230501data.xlsx", 500)];
    let r = select_attachment(&cands, None);
    assert_eq!(r, SelectionOutcome::Accepted { index: 1, instant: 500 });
}

#[test]
fn selection_stops_at_first_of_two_matches() {
    let cands = vec![
        cand(b"20230401data.xlsx", 300),
        cand(b"20230501data.xlsx", 900),
    ];
    let r = select_attachment(&cands, None);
    assert_eq!(r, SelectionOutcome::Accepted { index: 0, instant: 300 });
}

#[test]
fn selection_not_found() {
    let cands = vec![cand(b"notes.txt", 500)];
    assert_eq!(select_attachment(&cands, None), SelectionOutcome::NotFound);
    assert_eq!(select_attachment(&Vec::new(), Some(7)), SelectionOutcome::NotFound);
}

#[test]
fn gate_accepts_newer_and_equal_instants() {
    let cands = vec![cand(b"20230501data.xlsx", 100)];
    assert_eq!(
        select_attachment(&cands, Some(100)),
        SelectionOutcome::Accepted { index: 0, instant: 100 }
    );
    assert_eq!(
        select_attachment(&cands, Some(50)),
        SelectionOutcome::Accepted { index: 0, instant: 100 }
    );
}

#[test]
fn gate_rejects_stale_candidate() {
    let cands = vec![cand(b"20230501data.xlsx", 199)];
    assert_eq!(select_attachment(&cands, Some(200)), SelectionOutcome::Rejected);
}

#[test]
fn second_run_with_older_candidate_is_rejected() {
    // first run: nothing stored, the candidate is accepted and its instant kept
    let first = vec![cand(b"20230501data.xlsx", 500)];
    let stored = match select_attachment(&first, None) {
        SelectionOutcome::Accepted { instant, .. } => instant,
        other => panic!("first run not accepted: {:?}", other),
    };
    // an older attachment against the stored instant is rejected
    let second = vec![cand(b"20230401data.xlsx", 400)];
    assert_eq!(select_attachment(&second, Some(stored)), SelectionOutcome::Rejected);
}

#[test]
fn merged_cell_resolution_inherits_from_below() {
    // values only on rows 0 and 3, blanks on rows 1 and 2
    let grid = vec![
        vec![num(5)],
        vec![Cell::Empty],
        vec![Cell::Empty],
        vec![num(9)],
    ];
    assert_eq!(resolve_value(&grid, 0, 0), Some(5));
    assert_eq!(resolve_value(&grid, 1, 0), Some(9));
    assert_eq!(resolve_value(&grid, 2, 0), Some(9));
    assert_eq!(resolve_value(&grid, 3, 0), Some(9));
}

#[test]
fn merged_cell_resolution_runs_off_the_sheet() {
    let grid = vec![vec![Cell::Empty], vec![text("x")]];
    assert_eq!(resolve_value(&grid, 0, 0), None);
    assert_eq!(resolve_value(&grid, 0, 5), None);
    assert_eq!(resolve_value(&grid, 9, 0), None);
}

#[test]
fn status_tree_sample_row() {
    // columns 1..=10 hold 120, 45, 2, 30, 5, 1, 3, 8, 60, 4
    let grid = vec![vec![
        Cell::Empty,
        num(120),
        num(45),
        num(2),
        num(30),
        num(5),
        num(1),
        num(3),
        num(8),
        num(60),
        num(4),
    ]];
    let s = extract_status(&grid, 777).expect("status");
    assert_eq!(s.attr, Attributes::Inspections);
    assert_eq!(s.value, 120);
    assert_eq!(s.last_update, Some(777));
    let children = s.children.expect("root children");
    assert_eq!(children.len(), 1);
    let patients = &children[0];
    assert_eq!(patients.attr, Attributes::Patients);
    assert_eq!(patients.value, 45);
    assert_eq!(patients.last_update, Some(777));
    let leaves = patients.children.as_ref().expect("leaves");
    let expect = [
        (Attributes::Hospitalizations, 30),
        (Attributes::SeverelyPatients, 5),
        (Attributes::Other, 1),
        (Attributes::Accommodations, 3),
        (Attributes::Home, 8),
        (Attributes::Dead, 60),
        (Attributes::Leave, 2),
        (Attributes::Coordinating, 4),
    ];
    assert_eq!(leaves.len(), expect.len());
    for (leaf, (attr, value)) in leaves.iter().zip(expect.iter()) {
        assert_eq!(leaf.attr, *attr);
        assert_eq!(leaf.value, *value);
        assert!(leaf.children.is_none());
        assert!(leaf.last_update.is_none());
    }
}

#[test]
fn status_tree_reads_through_merged_cells() {
    // the first row is blank where the second row carries the values
    let row0 = vec![
        Cell::Empty,
        num(120),
        Cell::Empty,
        num(2),
        num(30),
        num(5),
        num(1),
        num(3),
        num(8),
        num(60),
        num(4),
    ];
    let mut row1 = vec![Cell::Empty; 11];
    row1[2] = num(45);
    let grid = vec![row0, row1];
    let s = extract_status(&grid, 1).expect("status");
    assert_eq!(s.children.unwrap()[0].value, 45);
}

#[test]
fn status_tree_missing_value() {
    let grid: Vec<Vec<Cell>> = Vec::new();
    assert!(matches!(
        extract_status(&grid, 0),
        Err(ExtractError::MissingStatusValue { column: 1 })
    ));
    // root resolves but the patients column never does
    let grid = vec![vec![Cell::Empty, num(120)]];
    assert!(matches!(
        extract_status(&grid, 0),
        Err(ExtractError::MissingStatusValue { column: 2 })
    ));
}

#[test]
fn patients_series_is_reversed() {
    let grid = vec![
        vec![stamp(100), num(1)],
        vec![stamp(101), num(2)],
        vec![stamp(102), num(3)],
    ];
    let s = extract_patients(&grid, 55).expect("patients");
    assert_eq!(s.last_update, 55);
    let days: Vec<i64> = s.data.iter().map(|c| c.date.day).collect();
    let sums: Vec<u32> = s.data.iter().map(|c| c.sum).collect();
    assert_eq!(days, vec![102, 101, 100]);
    assert_eq!(sums, vec![3, 2, 1]);
}

#[test]
fn patients_missing_date_and_count() {
    let grid = vec![vec![text("no date"), num(1)], vec![stamp(2), num(4)]];
    assert!(matches!(
        extract_patients(&grid, 0),
        Err(ExtractError::MissingDate { sheet: SheetKind::Patients, row: 0 })
    ));
    let grid = vec![vec![stamp(1), text("n/a")]];
    assert!(matches!(
        extract_patients(&grid, 0),
        Err(ExtractError::MissingCount { sheet: SheetKind::Patients, row: 0 })
    ));
}

#[test]
fn inspections_delta_from_cumulative() {
    // the sheet is newest-first: reverse processing sees 3, 7, 10
    let grid = vec![
        vec![stamp(102), num(10)],
        vec![stamp(101), num(7)],
        vec![stamp(100), num(3)],
    ];
    let s = extract_inspections(&grid, 9).expect("inspections");
    let days: Vec<i64> = s.data.iter().map(|c| c.date.day).collect();
    let sums: Vec<u32> = s.data.iter().map(|c| c.sum).collect();
    assert_eq!(days, vec![100, 101, 102]);
    assert_eq!(sums, vec![3, 4, 3]);
    // the deltas sum back to the cumulative total at every prefix
    let mut total = 0u32;
    let cumulative = [3u32, 7, 10];
    for (delta, cum) in sums.iter().zip(cumulative.iter()) {
        total += delta;
        assert_eq!(total, *cum);
    }
}

#[test]
fn inspections_rejects_decreasing_cumulative() {
    // processing order reads 7 first, then 3: the column decreased
    let grid = vec![vec![stamp(101), num(3)], vec![stamp(100), num(7)]];
    assert!(matches!(
        extract_inspections(&grid, 0),
        Err(ExtractError::NonMonotonic { row: 0 })
    ));
}

#[test]
fn inspections_missing_count_reported_on_first_processed_failure() {
    let grid = vec![vec![stamp(101), text("n/a")], vec![stamp(100), num(7)]];
    assert!(matches!(
        extract_inspections(&grid, 0),
        Err(ExtractError::MissingCount { sheet: SheetKind::Inspections, row: 0 })
    ));
}

#[test]
fn news_preserves_row_order() {
    let grid = vec![
        vec![stamp(200), text("first"), text("https://example.com/a")],
        vec![stamp(201), text("second"), text("https://example.com/b")],
    ];
    let ns = extract_news(&grid).expect("news");
    assert_eq!(ns.news_items.len(), 2);
    assert_eq!(ns.news_items[0].date, 200);
    assert_eq!(ns.news_items[0].text, "first");
    assert_eq!(ns.news_items[0].url, "https://example.com/a");
    assert_eq!(ns.news_items[1].date, 201);
    assert_eq!(ns.news_items[1].text, "second");
}

#[test]
fn news_missing_fields() {
    let grid = vec![vec![stamp(1), num(3), text("u")]];
    assert!(matches!(extract_news(&grid), Err(ExtractError::MissingText { row: 0 })));
    let grid = vec![vec![stamp(1), text("t")]];
    assert!(matches!(extract_news(&grid), Err(ExtractError::MissingUrl { row: 0 })));
    let grid = vec![vec![Cell::Empty, text("t"), text("u")]];
    assert!(matches!(
        extract_news(&grid),
        Err(ExtractError::MissingDate { sheet: SheetKind::News, row: 0 })
    ));
}

#[test]
fn build_artifacts_full_run() {
    let patients = vec![vec![stamp(100), num(1)], vec![stamp(101), num(2)]];
    let inspections = vec![
        vec![stamp(101), num(10), num(4), num(2), num(3), num(1), num(0), num(0), num(0), num(0), num(0)],
        vec![stamp(100), num(6), num(4), num(2), num(3), num(1), num(0), num(0), num(0), num(0), num(0)],
    ];
    let news = vec![vec![stamp(300), text("t"), text("u")]];
    let a = build_artifacts(&Some(patients), &Some(inspections), &Some(news), 42)
        .expect("artifacts");
    assert_eq!(a.last_update, LastUpdate { datetime: 42 });
    assert_eq!(a.patients_summary.last_update, 42);
    assert_eq!(a.inspections_summary.last_update, 42);
    let sums: Vec<u32> = a.inspections_summary.data.iter().map(|c| c.sum).collect();
    assert_eq!(sums, vec![6, 4]);
    assert_eq!(a.main_summary.value, 10);
    assert_eq!(a.main_summary.last_update, Some(42));
    assert_eq!(a.news.news_items.len(), 1);
}

#[test]
fn build_artifacts_missing_sheets() {
    let grid = vec![vec![stamp(1), num(1)]];
    assert!(matches!(
        build_artifacts(&None, &Some(grid.clone()), &None, 0),
        Err(ExtractError::MissingSheet { sheet: SheetKind::Patients })
    ));
    assert!(matches!(
        build_artifacts(&Some(grid.clone()), &None, &None, 0),
        Err(ExtractError::MissingSheet { sheet: SheetKind::Inspections })
    ));
}

fn base_remote_args() -> Args {
    Args {
        auth_url: None,
        client_id: None,
        client_secret: None,
        fetch_size: 4,
        file_path: None,
        login_type: Some(LoginMethod::Password),
        mode: AppMode::Remote,
        password: Some("secret".to_string()),
        port: 993,
        refresh_token: None,
        server: Some("imap.example.com".to_string()),
        token_url: None,
        query: Some("FROM stats".to_string()),
        user: Some("me".to_string()),
    }
}

#[test]
fn validate_remote_password_run() {
    let args = base_remote_args();
    match validate_args(&args).expect("config") {
        RunConfig::Remote { server, query, fetch_size, credentials } => {
            assert_eq!(server.address, "imap.example.com");
            assert_eq!(server.port, 993);
            assert_eq!(query, "FROM stats");
            assert_eq!(fetch_size, 4);
            match credentials {
                Credentials::Password { user, password } => {
                    assert_eq!(user, "me");
                    assert_eq!(password, "secret");
                },
                _ => panic!("wrong credentials"),
            }
        },
        _ => panic!("wrong mode"),
    }
}

#[test]
fn validate_remote_oauth2_run() {
    let mut args = base_remote_args();
    args.login_type = Some(LoginMethod::OAuth2);
    args.auth_url = Some("https://auth".to_string());
    args.client_id = Some("id".to_string());
    args.client_secret = Some("cs".to_string());
    args.refresh_token = Some("rt".to_string());
    args.token_url = Some("https://token".to_string());
    match validate_args(&args).expect("config") {
        RunConfig::Remote { credentials: Credentials::OAuth2 { user, token_url, .. }, .. } => {
            assert_eq!(user, "me");
            assert_eq!(token_url, "https://token");
        },
        _ => panic!("wrong shape"),
    }
}

#[test]
fn validate_reports_each_missing_parameter() {
    let mut args = base_remote_args();
    args.login_type = None;
    assert!(matches!(validate_args(&args), Err(ConfigError::MissingLoginType)));

    let mut args = base_remote_args();
    args.server = None;
    assert!(matches!(validate_args(&args), Err(ConfigError::MissingServer)));

    let mut args = base_remote_args();
    args.user = None;
    assert!(matches!(validate_args(&args), Err(ConfigError::MissingUser)));

    let mut args = base_remote_args();
    args.password = None;
    assert!(matches!(validate_args(&args), Err(ConfigError::MissingPassword)));

    let mut args = base_remote_args();
    args.query = None;
    assert!(matches!(validate_args(&args), Err(ConfigError::MissingQuery)));

    let mut args = base_remote_args();
    args.login_type = Some(LoginMethod::OAuth2);
    assert!(matches!(validate_args(&args), Err(ConfigError::MissingAuthUrl)));
    args.auth_url = Some("a".to_string());
    assert!(matches!(validate_args(&args), Err(ConfigError::MissingClientId)));
    args.client_id = Some("b".to_string());
    assert!(matches!(validate_args(&args), Err(ConfigError::MissingClientSecret)));
    args.client_secret = Some("c".to_string());
    assert!(matches!(validate_args(&args), Err(ConfigError::MissingRefreshToken)));
    args.refresh_token = Some("d".to_string());
    assert!(matches!(validate_args(&args), Err(ConfigError::MissingTokenUrl)));
}

#[test]
fn validate_local_run() {
    let args = Args {
        auth_url: None,
        client_id: None,
        client_secret: None,
        fetch_size: 4,
        file_path: Some("./data.xlsx".to_string()),
        login_type: None,
        mode: AppMode::Local,
        password: None,
        port: 993,
        refresh_token: None,
        server: None,
        token_url: None,
        query: None,
        user: None,
    };
    match validate_args(&args).expect("config") {
        RunConfig::Local { file_path } => assert_eq!(file_path, "./data.xlsx"),
        _ => panic!("wrong mode"),
    }
    let mut args = args;
    args.file_path = None;
    assert!(matches!(validate_args(&args), Err(ConfigError::MissingFilePath)));
}

#[test]
fn ids_sorted_descending() {
    let ids = vec![3u32, 1, 4, 1, 5];
    assert_eq!(sort_ids_descending(&ids), vec![5, 4, 3, 1, 1]);
    assert_eq!(sort_ids_descending(&Vec::new()), Vec::<u32>::new());
}

#[test]
fn ids_chunked_into_batches() {
    let ids = vec![7u32, 6, 5, 4, 3, 2, 1];
    let chunks = chunk_ids(&ids, 3);
    assert_eq!(chunks, vec![vec![7u32, 6, 5], vec![4, 3, 2], vec![1]]);
    let chunks = chunk_ids(&ids, 10);
    assert_eq!(chunks, vec![vec![7u32, 6, 5, 4, 3, 2, 1]]);
}

#[test]
fn xoauth2_response_format() {
    let account = OAuth2 { user: "me@example.com".to_string(), access_token: "tok".to_string() };
    assert_eq!(
        account.xoauth2_response(),
        "user=me@example.com\u{1}auth=Bearer tok\u{1}\u{1}"
    );
}

#[test]
fn mail_client_error_names() {
    assert_eq!(MailClientError::EstablishmentError.describe(), "EstablishmentError");
    assert_eq!(
        MailClientError::FailedToGetTokenError.describe(),
        "FailedToGetTokenError"
    );
}

#[test]
fn last_update_now_runs() {
    // nothing is promised of the clock; the call must simply work
    let a = LastUpdate::now();
    let b = LastUpdate::now();
    assert!(b.datetime >= a.datetime - 3600);
}
