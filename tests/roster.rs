use employees::decimal::to_decimal;
use employees::roster::{consume, create_employees, employee_name, fired_line, peek, team_report, Employee};

#[test]
fn create_has_requested_length() {
    for n in [0u32, 1, 2, 5, 17, 100] {
        assert_eq!(create_employees(n).len(), n as usize);
    }
}

#[test]
fn create_assigns_ids_and_names_in_order() {
    let team = create_employees(12);
    for (i, e) in team.iter().enumerate() {
        assert_eq!(e.id, i as u32);
        assert_eq!(e.name, format!("Employee {}", i));
    }
    assert_eq!(team[10].name, "Employee 10");
}

#[test]
fn create_zero_is_empty_and_releases_nothing() {
    let team = create_employees(0);
    assert!(team.is_empty());
    let lines = consume(team);
    assert!(lines.is_empty());
}

#[test]
fn peek_twice_gives_same_record() {
    let team = create_employees(4);
    let a = peek(&team, 2);
    let b = peek(&team, 2);
    assert_eq!(a.id, b.id);
    assert_eq!(a.name, b.name);
    assert_eq!(a.id, 2);
    assert_eq!(a.name, "Employee 2");
    assert_eq!(team.len(), 4);
}

#[test]
fn consume_visits_in_ascending_order() {
    let team = create_employees(11);
    let lines = consume(team);
    assert_eq!(lines.len(), 11);
    for (i, line) in lines.iter().enumerate() {
        assert_eq!(*line, format!("  - Fired Employee Employee {} ({})", i, i));
    }
}

#[test]
fn consume_keeps_the_order_it_is_given() {
    let team = vec![
        Employee { id: 7, name: String::from("Ada") },
        Employee { id: 3, name: String::from("Bo") },
    ];
    let lines = consume(team);
    assert_eq!(lines, vec!["  - Fired Employee Ada (7)", "  - Fired Employee Bo (3)"]);
}

#[test]
fn fired_line_formats_name_and_id() {
    let e = Employee { id: 42, name: String::from("Employee 42") };
    assert_eq!(fired_line(&e), "  - Fired Employee Employee 42 (42)");
}

#[test]
fn employee_name_spells_id() {
    assert_eq!(employee_name(0), "Employee 0");
    assert_eq!(employee_name(9), "Employee 9");
    assert_eq!(employee_name(10), "Employee 10");
    assert_eq!(employee_name(4294967295), "Employee 4294967295");
}

#[test]
fn to_decimal_edges() {
    assert_eq!(to_decimal(0), "0");
    assert_eq!(to_decimal(7), "7");
    assert_eq!(to_decimal(10), "10");
    assert_eq!(to_decimal(1000), "1000");
    assert_eq!(to_decimal(u32::MAX), "4294967295");
}

#[test]
fn report_for_team_of_five() {
    let team = create_employees(5);
    let first = peek(&team, 0);
    assert_eq!(first.id, 0);
    assert_eq!(first.name, "Employee 0");
    let expected = vec![
        "Team A created with 5 members.",
        "First employee in Team A: Employee 0",
        "Releasing Team A members...",
        "  - Fired Employee Employee 0 (0)",
        "  - Fired Employee Employee 1 (1)",
        "  - Fired Employee Employee 2 (2)",
        "  - Fired Employee Employee 3 (3)",
        "  - Fired Employee Employee 4 (4)",
    ];
    assert_eq!(team_report(5), expected);
}

#[test]
fn report_for_team_of_one() {
    assert_eq!(
        team_report(1),
        vec![
            "Team A created with 1 members.",
            "First employee in Team A: Employee 0",
            "Releasing Team A members...",
            "  - Fired Employee Employee 0 (0)",
        ]
    );
}
