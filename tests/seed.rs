use dolt_diesel_demo::calendar::{CalendarDate, Timestamp};
use dolt_diesel_demo::models::{Employee, EmployeeAfterEdit, EmployeeTeamInsertable, Team};
use dolt_diesel_demo::seed::{
    hired_employee, hired_membership, initial_employees, initial_memberships, initial_teams,
    late_start_last_name, late_start_update, removed_membership, renamed_first_name, start_dates,
};

fn midnight(y: i32, m: u32, d: u32) -> Timestamp {
    Timestamp::midnight(CalendarDate::new(y, m, d).unwrap())
}

#[test]
fn initial_rows() {
    let e = initial_employees();
    let names: Vec<(i32, &str, &str)> =
        e.iter().map(|e| (e.id, e.first_name.as_str(), e.last_name.as_str())).collect();
    assert_eq!(
        names,
        vec![
            (0, "Tim", "Sehn"),
            (1, "Brian", "Hendricks"),
            (2, "Aaron", "Son"),
            (3, "Brian", "Fitzgerald"),
            (5, "Aliyss", "Snow"),
        ]
    );
    let t = initial_teams();
    assert_eq!(
        t,
        vec![Team { id: 0, name: "Engineering".to_string() }, Team { id: 1, name: "Sales".to_string() }]
    );
    let m: Vec<(i32, i32)> =
        initial_memberships().iter().map(|m| (m.employee_id, m.team_id)).collect();
    assert_eq!(m, vec![(0, 0), (1, 0), (2, 0), (0, 1), (3, 1), (5, 0)]);
}

#[test]
fn data_branch_changes() {
    assert_eq!(renamed_first_name(), ("Tim".to_string(), "Timothy".to_string()));
    assert_eq!(
        hired_employee(),
        Employee { id: 4, first_name: "Daylon".to_string(), last_name: "Wilkins".to_string() }
    );
    assert_eq!(hired_membership(), EmployeeTeamInsertable { employee_id: 4, team_id: 0 });
    assert_eq!(removed_membership(), EmployeeTeamInsertable { employee_id: 0, team_id: 1 });
}

#[test]
fn schema_branch_start_dates() {
    assert_eq!(
        start_dates(),
        vec![
            (0, midnight(2018, 8, 6)),
            (1, midnight(2018, 8, 6)),
            (2, midnight(2018, 8, 6)),
            (5, midnight(2023, 7, 4)),
        ]
    );
    assert_eq!(late_start_last_name(), "Fitzgerald");
    assert_eq!(late_start_update(&vec![]), None);
    let found = vec![EmployeeAfterEdit {
        id: 3,
        first_name: Some("Brian".to_string()),
        last_name: Some("Fitzgerald".to_string()),
        start_date: None,
    }];
    assert_eq!(late_start_update(&found), Some((3, midnight(2021, 4, 19))));
}
