//! Employee records and the lifecycle of a roster: creation, shared reads,
//! and one consuming release pass.
use vstd::prelude::*;
use vstd::string::*;
use crate::decimal::{decimal, push_decimal};

verus! {

/// One employee: a sequential id and the display name derived from it.
pub struct Employee {
    pub id: u32,
    pub name: String,
}

impl View for Employee {
    type V = (nat, Seq<char>);

    open spec fn view(&self) -> (nat, Seq<char>) {
        (self.id as nat, self.name@)
    }
}

/// The display name of the employee with the given id: `Employee <id>`.
pub open spec fn name_of(id: nat) -> Seq<char> {
    "Employee "@ + decimal(id)
}

/// The abstract contents of a roster of `count` employees: ids `0 .. count`
/// in ascending order, each with its derived name.
pub open spec fn roster(count: nat) -> Seq<(nat, Seq<char>)> {
    Seq::new(count, |i: int| (i as nat, name_of(i as nat)))
}

/// The abstract contents of a sequence of records.
pub open spec fn team_view(team: Seq<Employee>) -> Seq<(nat, Seq<char>)> {
    team.map_values(|e: Employee| e@)
}

/// The line printed when a record is released.
pub open spec fn fired_line_of(e: (nat, Seq<char>)) -> Seq<char> {
    "  - Fired Employee "@ + e.1 + " ("@ + decimal(e.0) + ")"@
}

/// The lines of one release pass over a roster, one per record, in order.
pub open spec fn release_lines(team: Seq<(nat, Seq<char>)>) -> Seq<Seq<char>> {
    team.map_values(|e: (nat, Seq<char>)| fired_line_of(e))
}

/// The abstract contents of a sequence of strings.
pub open spec fn lines_view(lines: Seq<String>) -> Seq<Seq<char>> {
    lines.map_values(|s: String| s@)
}

/// Builds the display name for `id`.
pub fn employee_name(id: u32) -> (r: String)
    ensures
        r@ == name_of(id as nat),
{
    let mut s = String::from_str("Employee ");
    proof { reveal_strlit("Employee "); }
    push_decimal(&mut s, id);
    s
}

/// Builds `count` records with ids `0 .. count` in ascending order, each
/// named `Employee <id>`; ownership of the new roster goes to the caller.
pub fn create_employees(num_employees: u32) -> (r: Vec<Employee>)
    ensures
        r.len() == num_employees,
        forall|i: int|
            0 <= i < num_employees ==> #[trigger] r[i].id == i && r[i].name@ == "Employee "@
                + decimal(i as nat),
        team_view(r@) == roster(num_employees as nat),
{
    let mut employees: Vec<Employee> = Vec::new();
    let mut i: u32 = 0;
    while i < num_employees
        invariant
            i <= num_employees,
            employees.len() == i,
            forall|k: int| 0 <= k < i ==> #[trigger] employees[k]@ == (k as nat, name_of(k as nat)),
        decreases num_employees - i,
    {
        let employee = Employee { id: i, name: employee_name(i) };
        employees.push(employee);
        i = i + 1;
    }
    proof {
        assert(team_view(employees@) =~= roster(num_employees as nat));
        assert forall|k: int| 0 <= k < num_employees implies #[trigger] employees[k].id == k
            && employees[k].name@ == "Employee "@ + decimal(k as nat) by {
            assert(employees[k]@ == (k as nat, name_of(k as nat)));
        }
    }
    employees
}

/// Lends the record at `index` without taking it out of the roster.
pub fn peek(team: &Vec<Employee>, index: usize) -> (r: &Employee)
    requires
        index < team.len(),
    ensures
        *r == team[index as int],
        r@ == team_view(team@)[index as int],
{
    &team[index]
}

/// Builds the release line of one record: `  - Fired Employee <name> (<id>)`.
pub fn fired_line(e: &Employee) -> (r: String)
    ensures
        r@ == fired_line_of(e@),
{
    let mut s = String::from_str("  - Fired Employee ");
    s.append(e.name.as_str());
    s.append(" (");
    push_decimal(&mut s, e.id);
    s.append(")");
    s
}

/// Takes the roster by value and releases every record once, in order of
/// insertion, returning the line that each release reports. The roster is
/// gone afterwards.
pub fn consume(team: Vec<Employee>) -> (lines: Vec<String>)
    ensures
        lines.len() == team.len(),
        lines_view(lines@) == release_lines(team_view(team@)),
{
    let mut lines: Vec<String> = Vec::new();
    let mut i: usize = 0;
    while i < team.len()
        invariant
            i <= team.len(),
            lines.len() == i,
            forall|k: int| 0 <= k < i ==> #[trigger] lines[k]@ == fired_line_of(team[k]@),
        decreases team.len() - i,
    {
        let line = fired_line(&team[i]);
        lines.push(line);
        i = i + 1;
    }
    assert(lines_view(lines@) =~= release_lines(team_view(team@)));
    lines
}

/// The full report of one roster's lifecycle: its size, its first member's
/// name, a release heading, then one release line per record.
pub open spec fn report_of(count: nat) -> Seq<Seq<char>> {
    seq![
        "Team A created with "@ + decimal(count) + " members."@,
        "First employee in Team A: "@ + name_of(0),
        "Releasing Team A members..."@,
    ] + release_lines(roster(count))
}

/// Creates a roster of `count` employees, reads its first record by shared
/// reference, then consumes it, returning every line of the report in order.
pub fn team_report(count: u32) -> (lines: Vec<String>)
    requires
        count > 0,
    ensures
        lines_view(lines@) == report_of(count as nat),
{
    let team = create_employees(count);
    let mut lines: Vec<String> = Vec::new();
    let mut header = String::from_str("Team A created with ");
    push_decimal(&mut header, count);
    header.append(" members.");
    lines.push(header);
    let first = peek(&team, 0);
    let mut first_line = String::from_str("First employee in Team A: ");
    first_line.append(first.name.as_str());
    lines.push(first_line);
    lines.push(String::from_str("Releasing Team A members..."));
    let mut released = consume(team);
    lines.append(&mut released);
    proof {
        assert(lines_view(lines@) =~= report_of(count as nat));
    }
    lines
}

/// A roster of every size holds exactly that many records, and a roster of
/// size zero is empty, so releasing it reports nothing.
pub proof fn lemma_roster_len(count: nat)
    ensures
        roster(count).len() == count,
        release_lines(roster(count)).len() == count,
        count == 0 ==> roster(count) == Seq::<(nat, Seq<char>)>::empty(),
        count == 0 ==> release_lines(roster(count)) == Seq::<Seq<char>>::empty(),
{
    if count == 0 {
        assert(roster(count) =~= Seq::<(nat, Seq<char>)>::empty());
        assert(release_lines(roster(count)) =~= Seq::<Seq<char>>::empty());
    }
}

/// Reading the same index of a roster twice gives the same record: a read
/// is a pure function of the roster's contents.
pub proof fn lemma_peek_repeatable(team: Seq<Employee>, index: int, first: Employee, second: Employee)
    requires
        0 <= index < team.len(),
        first == team[index],
        second == team[index],
    ensures
        first@ == second@,
        first@ == team_view(team)[index],
{
}

/// Releasing a freshly created roster visits its records in strictly
/// ascending id order, each exactly once: the release line at position `i`
/// is the one of the record with id `i`, and there is one per record.
pub proof fn lemma_release_ascending(count: nat)
    ensures
        release_lines(roster(count)).len() == count,
        forall|i: int, j: int| 0 <= i < j < count ==> #[trigger] roster(count)[i].0 < #[trigger] roster(count)[j].0,
        forall|i: int|
            0 <= i < count ==> #[trigger] release_lines(roster(count))[i] == fired_line_of(
                (i as nat, name_of(i as nat)),
            ),
{
}

} // verus!
