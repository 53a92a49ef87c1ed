use vstd::prelude::*;

use crate::calendar::{CalendarDate, Timestamp, MAX_YEAR, MIN_YEAR};
use crate::models::{Employee, EmployeeAfterEdit, EmployeeTeamInsertable, Team};

verus! {

pub open spec fn employee_is(e: Employee, id: int, first: Seq<char>, last: Seq<char>) -> bool {
    e.id == id && e.first_name@ == first && e.last_name@ == last
}

pub open spec fn team_is(t: Team, id: int, name: Seq<char>) -> bool {
    t.id == id && t.name@ == name
}

pub open spec fn membership_is(m: EmployeeTeamInsertable, employee: int, team: int) -> bool {
    m.employee_id == employee && m.team_id == team
}

/// Midnight on the given day.
pub open spec fn midnight_of(y: int, m: int, d: int) -> Timestamp {
    Timestamp {
        date: CalendarDate { year: y as i32, month: m as u32, day: d as u32 },
        hour: 0,
        minute: 0,
        second: 0,
        nanosecond: 0,
    }
}

fn employee(id: i32, first: &str, last: &str) -> (r: Employee)
    ensures
        employee_is(r, id as int, first@, last@),
{
    Employee { id, first_name: String::from_str(first), last_name: String::from_str(last) }
}

fn team(id: i32, name: &str) -> (r: Team)
    ensures
        team_is(r, id as int, name@),
{
    Team { id, name: String::from_str(name) }
}

fn midnight(year: i32, month: u32, day: u32) -> (r: Timestamp)
    requires
        1 <= month <= 12,
        1 <= day <= 28,
        MIN_YEAR <= year <= MAX_YEAR,
    ensures
        r.wf(),
        r == midnight_of(year as int, month as int, day as int),
{
    Timestamp::midnight(CalendarDate { year, month, day })
}

/// The employees loaded into a fresh schema.
pub fn initial_employees() -> (r: Vec<Employee>)
    ensures
        r@.len() == 5,
        employee_is(r@[0], 0, "Tim"@, "Sehn"@),
        employee_is(r@[1], 1, "Brian"@, "Hendricks"@),
        employee_is(r@[2], 2, "Aaron"@, "Son"@),
        employee_is(r@[3], 3, "Brian"@, "Fitzgerald"@),
        employee_is(r@[4], 5, "Aliyss"@, "Snow"@),
{
    let mut r: Vec<Employee> = Vec::new();
    r.push(employee(0, "Tim", "Sehn"));
    r.push(employee(1, "Brian", "Hendricks"));
    r.push(employee(2, "Aaron", "Son"));
    r.push(employee(3, "Brian", "Fitzgerald"));
    r.push(employee(5, "Aliyss", "Snow"));
    r
}

/// The teams loaded into a fresh schema.
pub fn initial_teams() -> (r: Vec<Team>)
    ensures
        r@.len() == 2,
        team_is(r@[0], 0, "Engineering"@),
        team_is(r@[1], 1, "Sales"@),
{
    let mut r: Vec<Team> = Vec::new();
    r.push(team(0, "Engineering"));
    r.push(team(1, "Sales"));
    r
}

/// Who belongs to which team in a fresh schema, as (employee, team) ids.
pub fn initial_memberships() -> (r: Vec<EmployeeTeamInsertable>)
    ensures
        r@ == seq![
            EmployeeTeamInsertable { employee_id: 0, team_id: 0 },
            EmployeeTeamInsertable { employee_id: 1, team_id: 0 },
            EmployeeTeamInsertable { employee_id: 2, team_id: 0 },
            EmployeeTeamInsertable { employee_id: 0, team_id: 1 },
            EmployeeTeamInsertable { employee_id: 3, team_id: 1 },
            EmployeeTeamInsertable { employee_id: 5, team_id: 0 },
        ],
{
    let r = vec![
        EmployeeTeamInsertable { employee_id: 0, team_id: 0 },
        EmployeeTeamInsertable { employee_id: 1, team_id: 0 },
        EmployeeTeamInsertable { employee_id: 2, team_id: 0 },
        EmployeeTeamInsertable { employee_id: 0, team_id: 1 },
        EmployeeTeamInsertable { employee_id: 3, team_id: 1 },
        EmployeeTeamInsertable { employee_id: 5, team_id: 0 },
    ];
    assert(r@ =~= seq![
        EmployeeTeamInsertable { employee_id: 0, team_id: 0 },
        EmployeeTeamInsertable { employee_id: 1, team_id: 0 },
        EmployeeTeamInsertable { employee_id: 2, team_id: 0 },
        EmployeeTeamInsertable { employee_id: 0, team_id: 1 },
        EmployeeTeamInsertable { employee_id: 3, team_id: 1 },
        EmployeeTeamInsertable { employee_id: 5, team_id: 0 },
    ]);
    r
}

/// The first-name change made on the data branch: (old name, new name).
pub fn renamed_first_name() -> (r: (String, String))
    ensures
        r.0@ == "Tim"@,
        r.1@ == "Timothy"@,
{
    (String::from_str("Tim"), String::from_str("Timothy"))
}

/// The employee hired on the data branch.
pub fn hired_employee() -> (r: Employee)
    ensures
        employee_is(r, 4, "Daylon"@, "Wilkins"@),
{
    employee(4, "Daylon", "Wilkins")
}

/// The team that the hired employee joins.
pub fn hired_membership() -> (r: EmployeeTeamInsertable)
    ensures
        membership_is(r, 4, 0),
{
    EmployeeTeamInsertable { employee_id: 4, team_id: 0 }
}

/// The membership removed on the data branch: employee 0 leaves team 1.
pub fn removed_membership() -> (r: EmployeeTeamInsertable)
    ensures
        membership_is(r, 0, 1),
{
    EmployeeTeamInsertable { employee_id: 0, team_id: 1 }
}

/// The start dates set by id on the schema branch, each at midnight.
pub fn start_dates() -> (r: Vec<(i32, Timestamp)>)
    ensures
        r@ == seq![
            (0i32, midnight_of(2018, 8, 6)),
            (1i32, midnight_of(2018, 8, 6)),
            (2i32, midnight_of(2018, 8, 6)),
            (5i32, midnight_of(2023, 7, 4)),
        ],
        forall|i: int| 0 <= i < r@.len() ==> (#[trigger] r@[i]).1.wf(),
{
    let r = vec![
        (0i32, midnight(2018, 8, 6)),
        (1i32, midnight(2018, 8, 6)),
        (2i32, midnight(2018, 8, 6)),
        (5i32, midnight(2023, 7, 4)),
    ];
    assert(r@ =~= seq![
        (0i32, midnight_of(2018, 8, 6)),
        (1i32, midnight_of(2018, 8, 6)),
        (2i32, midnight_of(2018, 8, 6)),
        (5i32, midnight_of(2023, 7, 4)),
    ]);
    r
}

/// The last name of the employee whose start date is looked up by name.
pub fn late_start_last_name() -> (r: String)
    ensures
        r@ == "Fitzgerald"@,
{
    String::from_str("Fitzgerald")
}

/// The start date given to the employee found by last name: (id, date) of
/// the first row the lookup found, and `None` when it found none.
pub fn late_start_update(found: &Vec<EmployeeAfterEdit>) -> (r: Option<(i32, Timestamp)>)
    ensures
        r.is_some() == (found@.len() > 0),
        r matches Some(u) ==> u == (found@[0].id, midnight_of(2021, 4, 19)) && u.1.wf(),
{
    if found.len() > 0 {
        Some((found[0].id, midnight(2021, 4, 19)))
    } else {
        None
    }
}

} // verus!
