use vstd::prelude::*;

use crate::calendar::Timestamp;

verus! {

/// The row of `SELECT active_branch()`.
#[derive(Clone, Debug, PartialEq, Eq)]
pub struct ActiveBranch {
    pub name: String,
}

/// A row of `SHOW tables`.
#[derive(Clone, Debug, PartialEq, Eq)]
pub struct Table {
    pub name: String,
}

/// The status row of a version-control procedure.
#[derive(Clone, Copy, Debug, PartialEq, Eq)]
pub struct DoltCallResponse {
    pub status: i32,
}

/// The row returned by a commit: the new commit's hash.
#[derive(Clone, Debug, PartialEq, Eq)]
pub struct DoltCommitResponse {
    pub hash: String,
}

/// The row returned by a merge.
#[derive(Clone, Debug, PartialEq, Eq)]
pub struct DoltMergeResponse {
    pub hash: String,
    pub fast_forward: i32,
    pub conflicts: i32,
}

/// A row of the commit log system table.
#[derive(Clone, Debug, PartialEq, Eq)]
pub struct DoltLogEntry {
    pub commit_hash: String,
    pub committer: String,
    pub email: String,
    pub date: Timestamp,
    pub message: String,
}

/// A row of the working-set diff of `employees`, before `start_date` existed.
#[derive(Clone, Debug, PartialEq, Eq)]
pub struct DoltDiffEmployeesEntry {
    pub to_id: Option<i32>,
    pub to_last_name: Option<String>,
    pub to_first_name: Option<String>,
    pub to_commit: Option<String>,
    pub to_commit_date: Option<Timestamp>,
    pub from_id: Option<i32>,
    pub from_last_name: Option<String>,
    pub from_first_name: Option<String>,
    pub from_commit: Option<String>,
    pub from_commit_date: Option<Timestamp>,
    pub diff_type: Option<String>,
}

/// A row of the working-set diff of `employees_teams`.
#[derive(Clone, Debug, PartialEq, Eq)]
pub struct DoltDiffEmployeesTeamsEntry {
    pub to_id: Option<i32>,
    pub to_employee_id: Option<i32>,
    pub to_team_id: Option<i32>,
    pub to_commit: Option<String>,
    pub to_commit_date: Option<Timestamp>,
    pub from_id: Option<i32>,
    pub from_employee_id: Option<i32>,
    pub from_team_id: Option<i32>,
    pub from_commit: Option<String>,
    pub from_commit_date: Option<Timestamp>,
    pub diff_type: Option<String>,
}

/// A row of the working-set diff of `employees`, with the `start_date` column.
#[derive(Clone, Debug, PartialEq, Eq)]
pub struct DoltDiffEmployeesEntryAfterEdit {
    pub to_id: Option<i32>,
    pub to_last_name: Option<String>,
    pub to_first_name: Option<String>,
    pub to_start_date: Option<Timestamp>,
    pub to_commit: Option<String>,
    pub to_commit_date: Option<Timestamp>,
    pub from_id: Option<i32>,
    pub from_last_name: Option<String>,
    pub from_first_name: Option<String>,
    pub from_start_date: Option<Timestamp>,
    pub from_commit: Option<String>,
    pub from_commit_date: Option<Timestamp>,
    pub diff_type: Option<String>,
}

/// A row of the branches system table.
#[derive(Clone, Debug, PartialEq, Eq)]
pub struct DoltBranch {
    pub name: String,
    pub hash: String,
    pub latest_committer: String,
    pub latest_committer_email: String,
    pub latest_commit_date: Timestamp,
    pub latest_commit_message: String,
    pub remote: String,
    pub branch: String,
}

/// A row of the status system table.
#[derive(Clone, Debug, PartialEq, Eq)]
pub struct DoltStatus {
    pub table_name: String,
    pub staged: i32,
    pub status: String,
}

/// A row of `employees` before `start_date` existed.
#[derive(Clone, Debug, PartialEq, Eq)]
pub struct Employee {
    pub id: i32,
    pub first_name: String,
    pub last_name: String,
}

/// A row of `employees` with the `start_date` column.
#[derive(Clone, Debug, PartialEq, Eq)]
pub struct EmployeeAfterEdit {
    pub id: i32,
    pub first_name: Option<String>,
    pub last_name: Option<String>,
    pub start_date: Option<Timestamp>,
}

/// A row of `teams`.
#[derive(Clone, Debug, PartialEq, Eq)]
pub struct Team {
    pub id: i32,
    pub name: String,
}

/// A row of `employees_teams`.
#[derive(Clone, Copy, Debug, PartialEq, Eq)]
pub struct EmployeeTeam {
    pub id: i32,
    pub employee_id: i32,
    pub team_id: i32,
}

/// A row of the join of the three tables: a team and one of its members.
#[derive(Clone, Debug, PartialEq, Eq)]
pub struct TeamEmployee {
    pub team_name: Option<String>,
    pub first_name: Option<String>,
    pub last_name: Option<String>,
}

/// A row of the join of the three tables, with the member's start date.
#[derive(Clone, Debug, PartialEq, Eq)]
pub struct TeamEmployeeAfterEdit {
    pub team_name: Option<String>,
    pub first_name: Option<String>,
    pub last_name: Option<String>,
    pub start_date: Option<Timestamp>,
}

/// A team and a member's name, as read by column name.
#[derive(Clone, Debug, PartialEq, Eq)]
pub struct MappedEmployeeTeamWithStartDate {
    pub team_name: Option<String>,
    pub employee_first_name: Option<String>,
    pub employee_last_name: Option<String>,
}

/// A new row of `employees_teams`; its id is assigned by the database.
#[derive(Clone, Copy, Debug, PartialEq, Eq)]
pub struct EmployeeTeamInsertable {
    pub employee_id: i32,
    pub team_id: i32,
}

} // verus!
