use vstd::prelude::*;

use crate::calendar::{ymd_text, Timestamp};
use crate::models::{
    ActiveBranch, DoltCallResponse, DoltCommitResponse, DoltMergeResponse, Table, TeamEmployee,
    TeamEmployeeAfterEdit,
};
use crate::statements::{concat3, create_branch_statement};
use crate::text::{int_text, signed_text};

verus! {

/// The text of an optional column, empty when it is absent.
pub open spec fn or_empty(o: Option<String>) -> Seq<char> {
    match o {
        Some(s) => s@,
        None => Seq::empty(),
    }
}

/// The names of a list of branches, with every `main` left out.
pub open spec fn without_main(names: Seq<Seq<char>>) -> Seq<Seq<char>>
    decreases names.len(),
{
    if names.len() == 0 {
        Seq::empty()
    } else if names.last() == "main"@ {
        without_main(names.drop_last())
    } else {
        without_main(names.drop_last()).push(names.last())
    }
}

/// The views of a list of strings.
pub open spec fn texts(v: Seq<String>) -> Seq<Seq<char>> {
    v.map_values(|s: String| s@)
}

/// A commit of the log as it is listed: hash, message and committer.
pub open spec fn log_line(hash: Seq<char>, committer: Seq<char>, message: Seq<char>) -> Seq<char> {
    "\t"@ + hash + ": "@ + message + " by "@ + committer
}

/// A table of the status system table with its status.
pub open spec fn status_line(table: Seq<char>, status: Seq<char>) -> Seq<char> {
    "\t"@ + table + ": "@ + status
}

/// A team and one of its members, as the summary lists them.
pub open spec fn summary_text(row: TeamEmployee) -> Seq<char> {
    "\t"@ + or_empty(row.team_name) + ": "@ + or_empty(row.first_name) + " "@ + or_empty(
        row.last_name,
    )
}

/// A team, one of its members and the member's start date, when known.
pub open spec fn summary_text_with_start(row: TeamEmployeeAfterEdit) -> Seq<char> {
    "\t"@ + or_empty(row.team_name) + ": "@ + or_empty(row.first_name) + " "@ + or_empty(
        row.last_name,
    ) + match row.start_date {
        Some(t) => " "@ + ymd_text(t.date.year as int, t.date.month as int, t.date.day as int),
        None => Seq::empty(),
    }
}

/// Every start date in the rows names an existing moment.
pub open spec fn start_dates_wf(rows: Seq<TeamEmployeeAfterEdit>) -> bool {
    forall|i: int| 0 <= i < rows.len() ==> (
        (#[trigger] rows[i]).start_date matches Some(t) ==> t.wf())
}

fn text_or_empty(o: &Option<String>) -> (r: String)
    ensures
        r@ == or_empty(*o),
{
    match o {
        Some(s) => s.clone(),
        None => String::new(),
    }
}

/// The line that announces a new commit, when the commit returned a row.
pub fn commit_created_line(rows: &Vec<DoltCommitResponse>) -> (r: Option<String>)
    ensures
        r.is_some() == (rows@.len() > 0),
        r matches Some(s) ==> s@ == "Created commit: "@ + rows@[0].hash@,
{
    if rows.len() > 0 {
        let mut s = String::from_str("Created commit: ");
        s.append(rows[0].hash.as_str());
        Some(s)
    } else {
        None
    }
}

/// The line that announces a hard reset, to `commit` or to the head.
pub fn reset_line(commit: Option<&String>) -> (r: String)
    ensures
        commit matches Some(c) ==> r@ == "Resetting to commit: "@ + c@,
        commit is None ==> r@ == "Resetting to HEAD"@,
{
    match commit {
        Some(c) => {
            let mut s = String::from_str("Resetting to commit: ");
            s.append(c.as_str());
            s
        },
        None => String::from_str("Resetting to HEAD"),
    }
}

/// The branches to delete out of `names`: all of them but `main`, in order.
pub fn branches_to_delete(names: &Vec<String>) -> (r: Vec<String>)
    ensures
        texts(r@) == without_main(texts(names@)),
{
    let mut r: Vec<String> = Vec::new();
    let main = String::from_str("main");
    let mut i: usize = 0;
    while i < names.len()
        invariant
            i <= names@.len(),
            main@ == "main"@,
            texts(r@) == without_main(texts(names@.subrange(0, i as int))),
        decreases names@.len() - i,
    {
        let ghost before = r@;
        let ghost prefix = names@.subrange(0, i as int + 1);
        assert(texts(prefix).drop_last() =~= texts(names@.subrange(0, i as int)));
        assert(texts(prefix).last() == names@[i as int]@);
        if names[i] != main {
            r.push(names[i].clone());
            assert(texts(r@) =~= texts(before).push(names@[i as int]@));
        }
        i = i + 1;
    }
    assert(names@.subrange(0, names@.len() as int) =~= names@);
    r
}

/// The line printed before a branch is deleted.
pub fn deleting_branch_line(branch: &str) -> (r: String)
    ensures
        r@ == "Deleting branch: "@ + branch@,
{
    let mut s = String::from_str("Deleting branch: ");
    s.append(branch);
    s
}

/// What creating a branch comes to, given the existing branches of that name.
pub enum CreateBranchStep {
    /// The branch is there already: only this line is printed.
    Exists { line: String },
    /// The branch is created by this statement.
    Create { statement: String },
}

/// Creates `branch` unless the lookup of branches of that name found one.
pub fn create_branch_step(branch: &str, existing: &Vec<String>) -> (r: CreateBranchStep)
    ensures
        existing@.len() > 0 ==> (r matches CreateBranchStep::Exists { line } && line@
            == "Branch exists: "@ + branch@),
        existing@.len() == 0 ==> (r matches CreateBranchStep::Create { statement } && statement@
            == "CALL DOLT_BRANCH('"@ + branch@ + "')"@),
{
    if existing.len() > 0 {
        let mut line = String::from_str("Branch exists: ");
        line.append(branch);
        CreateBranchStep::Exists { line }
    } else {
        CreateBranchStep::Create { statement: create_branch_statement(branch) }
    }
}

/// The line that announces a new branch, when its creation returned a row.
pub fn branch_created_line(branch: &str, rows: &Vec<DoltCallResponse>) -> (r: Option<String>)
    ensures
        r.is_some() == (rows@.len() > 0),
        r matches Some(s) ==> s@ == "Created branch: "@ + branch@,
{
    if rows.len() > 0 {
        let mut s = String::from_str("Created branch: ");
        s.append(branch);
        Some(s)
    } else {
        None
    }
}

/// The lines that report a merge of `branch`: a heading, then the merge
/// commit, whether it was a fast forward and the number of conflicts, when
/// the merge returned a row.
pub fn merge_lines(branch: &str, rows: &Vec<DoltMergeResponse>) -> (r: Vec<String>)
    ensures
        r@.len() == if rows@.len() > 0 {
            4int
        } else {
            1int
        },
        r@[0]@ == "Merge Complete: "@ + branch@,
        rows@.len() > 0 ==> {
            &&& r@[1]@ == "\tCommit: "@ + rows@[0].hash@
            &&& r@[2]@ == "\tFast Forward: "@ + int_text(rows@[0].fast_forward as int)
            &&& r@[3]@ == "\tConflicts: "@ + int_text(rows@[0].conflicts as int)
        },
{
    let mut r: Vec<String> = Vec::new();
    let mut head = String::from_str("Merge Complete: ");
    head.append(branch);
    r.push(head);
    if rows.len() > 0 {
        let merge = &rows[0];
        let mut commit = String::from_str("\tCommit: ");
        commit.append(merge.hash.as_str());
        r.push(commit);
        let mut ff = String::from_str("\tFast Forward: ");
        ff.append(signed_text(merge.fast_forward).as_str());
        r.push(ff);
        let mut conflicts = String::from_str("\tConflicts: ");
        conflicts.append(signed_text(merge.conflicts).as_str());
        r.push(conflicts);
    }
    r
}

/// The commit log as it is printed: a heading, then one line per commit, each
/// given as (hash, committer, message), newest first as the log was read.
pub fn commit_log_lines(commits: &Vec<(String, String, String)>) -> (r: Vec<String>)
    ensures
        r@.len() == commits@.len() + 1,
        r@[0]@ == "Commit Log:"@,
        forall|i: int|
            0 <= i < commits@.len() ==> (#[trigger] r@[i + 1])@ == log_line(
                commits@[i].0@,
                commits@[i].1@,
                commits@[i].2@,
            ),
{
    let mut r: Vec<String> = Vec::new();
    r.push(String::from_str("Commit Log:"));
    let mut i: usize = 0;
    while i < commits.len()
        invariant
            i <= commits@.len(),
            r@.len() == i + 1,
            r@[0]@ == "Commit Log:"@,
            forall|j: int|
                0 <= j < i ==> (#[trigger] r@[j + 1])@ == log_line(
                    commits@[j].0@,
                    commits@[j].1@,
                    commits@[j].2@,
                ),
        decreases commits@.len() - i,
    {
        let (hash, committer, message) = &commits[i];
        let mut line = concat3("\t", hash.as_str(), ": ");
        line.append(message.as_str());
        line.append(" by ");
        line.append(committer.as_str());
        r.push(line);
        i = i + 1;
    }
    r
}

/// The status as it is printed: a heading, then one line per changed table,
/// given as (table, status), or a single line that says that none changed.
pub fn status_lines(changes: &Vec<(String, String)>) -> (r: Vec<String>)
    ensures
        r@[0]@ == "Status"@,
        changes@.len() == 0 ==> r@.len() == 2 && r@[1]@ == "\tNo tables modified"@,
        changes@.len() > 0 ==> r@.len() == changes@.len() + 1 && forall|i: int|
            0 <= i < changes@.len() ==> (#[trigger] r@[i + 1])@ == status_line(
                changes@[i].0@,
                changes@[i].1@,
            ),
{
    let mut r: Vec<String> = Vec::new();
    r.push(String::from_str("Status"));
    if changes.len() == 0 {
        r.push(String::from_str("\tNo tables modified"));
        return r;
    }
    let mut i: usize = 0;
    while i < changes.len()
        invariant
            i <= changes@.len(),
            r@.len() == i + 1,
            r@[0]@ == "Status"@,
            forall|j: int|
                0 <= j < i ==> (#[trigger] r@[j + 1])@ == status_line(
                    changes@[j].0@,
                    changes@[j].1@,
                ),
        decreases changes@.len() - i,
    {
        let (table, status) = &changes[i];
        let mut line = concat3("\t", table.as_str(), ": ");
        line.append(status.as_str());
        r.push(line);
        i = i + 1;
    }
    r
}

/// The line that names the active branch, when the query returned a row.
pub fn active_branch_line(rows: &Vec<ActiveBranch>) -> (r: Option<String>)
    ensures
        r.is_some() == (rows@.len() > 0),
        r matches Some(s) ==> s@ == "Active Branch: "@ + rows@[0].name@,
{
    if rows.len() > 0 {
        let mut s = String::from_str("Active Branch: ");
        s.append(rows[0].name.as_str());
        Some(s)
    } else {
        None
    }
}

/// The tables of the database as they are printed: a heading, then one
/// indented name per line.
pub fn table_lines(tables: &Vec<Table>) -> (r: Vec<String>)
    ensures
        r@.len() == tables@.len() + 1,
        r@[0]@ == "Tables in database: "@,
        forall|i: int| 0 <= i < tables@.len() ==> (#[trigger] r@[i + 1])@ == "\t"@ + tables@[i].name@,
{
    let mut r: Vec<String> = Vec::new();
    r.push(String::from_str("Tables in database: "));
    let mut i: usize = 0;
    while i < tables.len()
        invariant
            i <= tables@.len(),
            r@.len() == i + 1,
            r@[0]@ == "Tables in database: "@,
            forall|j: int| 0 <= j < i ==> (#[trigger] r@[j + 1])@ == "\t"@ + tables@[j].name@,
        decreases tables@.len() - i,
    {
        let mut line = String::from_str("\t");
        line.append(tables[i].name.as_str());
        r.push(line);
        i = i + 1;
    }
    r
}

/// The line printed before the diff of `table`.
pub fn diffing_line(table: &str) -> (r: String)
    ensures
        r@ == "Diffing table: "@ + table@,
{
    let mut s = String::from_str("Diffing table: ");
    s.append(table);
    s
}

/// A team and one of its members; an absent name is left empty.
pub fn summary_line(row: &TeamEmployee) -> (r: String)
    ensures
        r@ == summary_text(*row),
{
    let mut s = concat3("\t", text_or_empty(&row.team_name).as_str(), ": ");
    s.append(text_or_empty(&row.first_name).as_str());
    s.append(" ");
    s.append(text_or_empty(&row.last_name).as_str());
    s
}

/// A team, one of its members and, when it is known, the member's start date
/// as `YYYY-MM-DD`.
pub fn summary_line_with_start(row: &TeamEmployeeAfterEdit) -> (r: String)
    requires
        row.start_date matches Some(t) ==> t.wf(),
    ensures
        r@ == summary_text_with_start(*row),
{
    let mut s = concat3("\t", text_or_empty(&row.team_name).as_str(), ": ");
    s.append(text_or_empty(&row.first_name).as_str());
    s.append(" ");
    s.append(text_or_empty(&row.last_name).as_str());
    match &row.start_date {
        Some(t) => {
            s.append(" ");
            s.append(t.date.text().as_str());
        },
        None => {},
    }
    s
}

/// The team summary as it is printed: a heading, then a line per row.
pub fn summary_lines(rows: &Vec<TeamEmployee>) -> (r: Vec<String>)
    ensures
        r@.len() == rows@.len() + 1,
        r@[0]@ == "Team Summary"@,
        forall|i: int| 0 <= i < rows@.len() ==> (#[trigger] r@[i + 1])@ == summary_text(rows@[i]),
{
    let mut r: Vec<String> = Vec::new();
    r.push(String::from_str("Team Summary"));
    let mut i: usize = 0;
    while i < rows.len()
        invariant
            i <= rows@.len(),
            r@.len() == i + 1,
            r@[0]@ == "Team Summary"@,
            forall|j: int| 0 <= j < i ==> (#[trigger] r@[j + 1])@ == summary_text(rows@[j]),
        decreases rows@.len() - i,
    {
        r.push(summary_line(&rows[i]));
        i = i + 1;
    }
    r
}

/// The team summary with start dates: a heading, then a line per row.
pub fn summary_lines_with_start(rows: &Vec<TeamEmployeeAfterEdit>) -> (r: Vec<String>)
    requires
        start_dates_wf(rows@),
    ensures
        r@.len() == rows@.len() + 1,
        r@[0]@ == "Team Summary"@,
        forall|i: int|
            0 <= i < rows@.len() ==> (#[trigger] r@[i + 1])@ == summary_text_with_start(rows@[i]),
{
    let mut r: Vec<String> = Vec::new();
    r.push(String::from_str("Team Summary"));
    let mut i: usize = 0;
    while i < rows.len()
        invariant
            i <= rows@.len(),
            start_dates_wf(rows@),
            r@.len() == i + 1,
            r@[0]@ == "Team Summary"@,
            forall|j: int|
                0 <= j < i ==> (#[trigger] r@[j + 1])@ == summary_text_with_start(rows@[j]),
        decreases rows@.len() - i,
    {
        assert(rows@[i as int].start_date matches Some(t) ==> t.wf());
        r.push(summary_line_with_start(&rows[i]));
        i = i + 1;
    }
    r
}

} // verus!
