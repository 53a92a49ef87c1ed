use vstd::prelude::*;

verus! {

/// `a`, then `b`, then `c`.
pub(crate) fn concat3(a: &str, b: &str, c: &str) -> (r: String)
    ensures
        r@ == a@ + b@ + c@,
{
    let mut r = String::from_str(a);
    r.append(b);
    r.append(c);
    r
}

/// The tables that the walkthrough creates, and the only ones it drops.
pub open spec fn is_demo_table(t: Seq<char>) -> bool {
    t == "employees"@ || t == "teams"@ || t == "employees_teams"@
}

/// Creates the `employees` table.
pub fn create_employees_statement() -> (r: String)
    ensures
        r@ == "CREATE TABLE employees(id INTEGER PRIMARY KEY, last_name VARCHAR(255), first_name VARCHAR(255))"@,
{
    String::from_str(
        "CREATE TABLE employees(id INTEGER PRIMARY KEY, last_name VARCHAR(255), first_name VARCHAR(255))",
    )
}

/// Creates the `teams` table.
pub fn create_teams_statement() -> (r: String)
    ensures
        r@ == "CREATE TABLE teams(id INTEGER PRIMARY KEY, name VARCHAR(255))"@,
{
    String::from_str("CREATE TABLE teams(id INTEGER PRIMARY KEY, name VARCHAR(255))")
}

/// Creates the join table `employees_teams`, keyed by an increasing id, with a
/// foreign key to each of the other two tables.
pub fn create_employees_teams_statement() -> (r: String)
    ensures
        r@ == "CREATE TABLE employees_teams(id INTEGER PRIMARY KEY AUTO_INCREMENT, employee_id INTEGER NOT NULL, team_id INTEGER NOT NULL, FOREIGN KEY (employee_id) REFERENCES employees(id), FOREIGN KEY (team_id) REFERENCES teams(id))"@,
{
    String::from_str(
        "CREATE TABLE employees_teams(id INTEGER PRIMARY KEY AUTO_INCREMENT, employee_id INTEGER NOT NULL, team_id INTEGER NOT NULL, FOREIGN KEY (employee_id) REFERENCES employees(id), FOREIGN KEY (team_id) REFERENCES teams(id))",
    )
}

/// The statements that build the schema, in the order in which they run:
/// the join table comes last, as it refers to the other two.
pub fn create_table_statements() -> (r: Vec<String>)
    ensures
        r@.len() == 3,
        r@[0]@ == "CREATE TABLE employees(id INTEGER PRIMARY KEY, last_name VARCHAR(255), first_name VARCHAR(255))"@,
        r@[1]@ == "CREATE TABLE teams(id INTEGER PRIMARY KEY, name VARCHAR(255))"@,
        r@[2]@ == "CREATE TABLE employees_teams(id INTEGER PRIMARY KEY AUTO_INCREMENT, employee_id INTEGER NOT NULL, team_id INTEGER NOT NULL, FOREIGN KEY (employee_id) REFERENCES employees(id), FOREIGN KEY (team_id) REFERENCES teams(id))"@,
{
    let mut r: Vec<String> = Vec::new();
    r.push(create_employees_statement());
    r.push(create_teams_statement());
    r.push(create_employees_teams_statement());
    r
}

/// Adds a `start_date` column to `employees`.
pub fn add_start_date_statement() -> (r: String)
    ensures
        r@ == "ALTER TABLE employees add column start_date date"@,
{
    String::from_str("ALTER TABLE employees add column start_date date")
}

/// Drops `table`, when it is one of the walkthrough's tables; `None` otherwise.
pub fn drop_table_statement(table: &str) -> (r: Option<String>)
    ensures
        r.is_some() == is_demo_table(table@),
        r matches Some(s) ==> s@ == "DROP TABLE "@ + table@,
{
    let t = String::from_str(table);
    if t == String::from_str("employees") || t == String::from_str("teams") || t
        == String::from_str("employees_teams") {
        let mut s = String::from_str("DROP TABLE ");
        s.append(table);
        Some(s)
    } else {
        None
    }
}

/// Stages every change of the working set.
pub fn add_all_statement() -> (r: String)
    ensures
        r@ == "CALL DOLT_ADD('-A')"@,
{
    String::from_str("CALL DOLT_ADD('-A')")
}

/// Commits what is staged, under `author` and with `message`; a commit with
/// nothing in it is skipped.
pub fn commit_statement(author: &str, message: &str) -> (r: String)
    ensures
        r@ == "CALL DOLT_COMMIT('--skip-empty', '--author', '"@ + author@ + "', '-m', '"@
            + message@ + "')"@,
{
    let mut r = concat3("CALL DOLT_COMMIT('--skip-empty', '--author', '", author, "', '-m', '");
    r.append(message);
    r.append("')");
    r
}

/// Resets the working set and the staged changes hard, to `commit` when one is
/// given and to the head of the branch otherwise.
pub fn reset_statement(commit: Option<&String>) -> (r: String)
    ensures
        commit matches Some(c) ==> r@ == "CALL DOLT_RESET('--hard', '"@ + c@ + "')"@,
        commit is None ==> r@ == "CALL DOLT_RESET('--hard')"@,
{
    match commit {
        Some(c) => concat3("CALL DOLT_RESET('--hard', '", c.as_str(), "')"),
        None => String::from_str("CALL DOLT_RESET('--hard')"),
    }
}

/// Creates `branch` at the head of the current branch.
pub fn create_branch_statement(branch: &str) -> (r: String)
    ensures
        r@ == "CALL DOLT_BRANCH('"@ + branch@ + "')"@,
{
    concat3("CALL DOLT_BRANCH('", branch, "')")
}

/// Deletes `branch`, also when it holds unmerged commits.
pub fn delete_branch_statement(branch: &str) -> (r: String)
    ensures
        r@ == "CALL DOLT_BRANCH('-D', '"@ + branch@ + "')"@,
{
    concat3("CALL DOLT_BRANCH('-D', '", branch, "')")
}

/// Makes `branch` the session's active branch.
pub fn checkout_statement(branch: &str) -> (r: String)
    ensures
        r@ == "CALL DOLT_CHECKOUT('"@ + branch@ + "')"@,
{
    concat3("CALL DOLT_CHECKOUT('", branch, "')")
}

/// Merges `branch` into the active branch.
pub fn merge_statement(branch: &str) -> (r: String)
    ensures
        r@ == "CALL DOLT_MERGE('"@ + branch@ + "')"@,
{
    concat3("CALL DOLT_MERGE('", branch, "')")
}

/// Reads the uncommitted changes of `table` from its diff system table.
pub fn diff_statement(table: &str) -> (r: String)
    ensures
        r@ == "SELECT * from dolt_diff_"@ + table@ + " WHERE to_commit = 'WORKING'"@,
{
    concat3("SELECT * from dolt_diff_", table, " WHERE to_commit = 'WORKING'")
}

/// Reads the name of the active branch.
pub fn active_branch_statement() -> (r: String)
    ensures
        r@ == "SELECT active_branch()"@,
{
    String::from_str("SELECT active_branch()")
}

/// Lists the tables of the database.
pub fn show_tables_statement() -> (r: String)
    ensures
        r@ == "SHOW tables"@,
{
    String::from_str("SHOW tables")
}

/// The shape of the rows of a table's working-set diff.
#[derive(Clone, Copy, Debug, PartialEq, Eq)]
pub enum DiffRows {
    /// Rows of `employees` before `start_date` was added.
    Employees,
    /// Rows of `employees` with the `start_date` column.
    EmployeesWithStartDate,
    /// Rows of `employees_teams`.
    EmployeesTeams,
}

/// The shape of the diff rows of `table`; `None` for a table whose diff is
/// not shown.
pub fn diff_rows(table: &str, with_start_date: bool) -> (r: Option<DiffRows>)
    ensures
        table@ == "employees"@ ==> r == Some(
            if with_start_date {
                DiffRows::EmployeesWithStartDate
            } else {
                DiffRows::Employees
            },
        ),
        table@ == "employees_teams"@ ==> r == Some(DiffRows::EmployeesTeams),
        table@ != "employees"@ && table@ != "employees_teams"@ ==> r is None,
{
    proof {
        reveal_strlit("employees");
        reveal_strlit("employees_teams");
    }
    assert("employees"@.len() != "employees_teams"@.len());
    let t = String::from_str(table);
    if t == String::from_str("employees") {
        if with_start_date {
            Some(DiffRows::EmployeesWithStartDate)
        } else {
            Some(DiffRows::Employees)
        }
    } else if t == String::from_str("employees_teams") {
        Some(DiffRows::EmployeesTeams)
    } else {
        None
    }
}

} // verus!
