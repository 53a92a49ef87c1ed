use dolt_diesel_demo::statements::{
    active_branch_statement, add_all_statement, add_start_date_statement, checkout_statement,
    commit_statement, create_branch_statement, create_table_statements, delete_branch_statement,
    diff_rows, diff_statement, drop_table_statement, merge_statement, reset_statement,
    show_tables_statement, DiffRows,
};

#[test]
fn schema_is_created_join_table_last() {
    let s = create_table_statements();
    assert_eq!(s.len(), 3);
    assert!(s[0].starts_with("CREATE TABLE employees("));
    assert!(s[1].starts_with("CREATE TABLE teams("));
    assert!(s[2].starts_with("CREATE TABLE employees_teams("));
    assert!(s[2].contains("FOREIGN KEY (employee_id) REFERENCES employees(id)"));
    assert!(s[2].contains("FOREIGN KEY (team_id) REFERENCES teams(id)"));
}

#[test]
fn drop_table_only_for_known_tables() {
    assert_eq!(drop_table_statement("employees"), Some("DROP TABLE employees".to_string()));
    assert_eq!(drop_table_statement("teams"), Some("DROP TABLE teams".to_string()));
    assert_eq!(
        drop_table_statement("employees_teams"),
        Some("DROP TABLE employees_teams".to_string())
    );
    assert_eq!(drop_table_statement("dolt_log"), None);
    assert_eq!(drop_table_statement(""), None);
    assert_eq!(drop_table_statement("employee"), None);
}

#[test]
fn commit_statement_quotes_author_and_message() {
    assert_eq!(add_all_statement(), "CALL DOLT_ADD('-A')");
    assert_eq!(
        commit_statement("Tim <tim@dolthub.com>", "Created tables"),
        "CALL DOLT_COMMIT('--skip-empty', '--author', 'Tim <tim@dolthub.com>', '-m', 'Created tables')"
    );
}

#[test]
fn reset_statement_with_and_without_commit() {
    assert_eq!(reset_statement(None), "CALL DOLT_RESET('--hard')");
    let hash = "abc123".to_string();
    assert_eq!(reset_statement(Some(&hash)), "CALL DOLT_RESET('--hard', 'abc123')");
}

#[test]
fn branch_statements() {
    assert_eq!(create_branch_statement("modify_data"), "CALL DOLT_BRANCH('modify_data')");
    assert_eq!(delete_branch_statement("old"), "CALL DOLT_BRANCH('-D', 'old')");
    assert_eq!(checkout_statement("main"), "CALL DOLT_CHECKOUT('main')");
    assert_eq!(merge_statement("modify_schema"), "CALL DOLT_MERGE('modify_schema')");
}

#[test]
fn query_statements() {
    assert_eq!(
        diff_statement("employees"),
        "SELECT * from dolt_diff_employees WHERE to_commit = 'WORKING'"
    );
    assert_eq!(active_branch_statement(), "SELECT active_branch()");
    assert_eq!(show_tables_statement(), "SHOW tables");
    assert_eq!(
        add_start_date_statement(),
        "ALTER TABLE employees add column start_date date"
    );
}

#[test]
fn diff_rows_by_table() {
    assert_eq!(diff_rows("employees", false), Some(DiffRows::Employees));
    assert_eq!(diff_rows("employees", true), Some(DiffRows::EmployeesWithStartDate));
    assert_eq!(diff_rows("employees_teams", false), Some(DiffRows::EmployeesTeams));
    assert_eq!(diff_rows("employees_teams", true), Some(DiffRows::EmployeesTeams));
    assert_eq!(diff_rows("teams", false), None);
}
