use mensa_report::report::{
    render_report, render_section, render_step, MealRecord, RenderError,
};
use mensa_report::resolve::CanteenRef;

fn canteen(id: u64, name: &str) -> CanteenRef {
    CanteenRef { id, name: name.to_string() }
}

fn meal(name: &str, category: &str, prices: &[&str], notes: &[&str]) -> MealRecord {
    MealRecord {
        name: name.to_string(),
        category: category.to_string(),
        prices: prices.iter().map(|p| p.to_string()).collect(),
        notes: notes.iter().map(|n| n.to_string()).collect(),
    }
}

#[test]
fn section_title_is_the_canteen_name() {
    let s = render_section(&canteen(1, "Mensa Nord"), &vec![meal("Soup", "Starter", &[], &[])]);
    assert_eq!(s.title, "Mensa Nord");
    assert!(s.body.contains("Soup"));
    assert!(s.body.contains("Starter"));
}

#[test]
fn section_joins_prices_and_notes() {
    let m = meal("Curry", "Main", &["2.50", "3.80"], &["ve", "hot"]);
    let s = render_section(&canteen(1, "M"), &vec![m]);
    assert!(s.body.contains("2.50, 3.80"));
    assert!(s.body.contains("ve, hot"));
}

#[test]
fn step_success_renders_a_section() {
    let r = render_step(&canteen(1, "Mensa Nord"), Ok(vec![meal("Soup", "Starter", &[], &[])]));
    let s = r.unwrap();
    assert_eq!(s.title, "Mensa Nord");
    assert!(s.body.contains("Soup"));
}

#[test]
fn step_failure_names_the_canteen() {
    let r = render_step(&canteen(1, "Mensa Nord"), Err("503".to_string()));
    match r.unwrap_err() {
        RenderError::Fetch(name, msg) => {
            assert_eq!(name, "Mensa Nord");
            assert_eq!(msg, "503");
        },
    }
}

#[test]
fn failing_second_canteen_stops_the_report_after_the_first() {
    let canteens = vec![canteen(1, "One"), canteen(2, "Two"), canteen(3, "Three")];
    let outcomes = vec![
        Ok(vec![meal("Soup", "Starter", &[], &[])]),
        Err("down".to_string()),
        Ok(vec![meal("Cake", "Dessert", &[], &[])]),
    ];
    let report = render_report(&canteens, outcomes);
    assert_eq!(report.sections.len(), 1);
    assert_eq!(report.sections[0].title, "One");
    assert!(report.sections[0].body.contains("Soup"));
    match report.error.unwrap() {
        RenderError::Fetch(name, msg) => {
            assert_eq!(name, "Two");
            assert_eq!(msg, "down");
        },
    }
}

#[test]
fn all_success_report_keeps_resolver_order_for_all_permutations() {
    let names = ["Alpha", "Beta", "Gamma"];
    let orders: [[usize; 3]; 6] =
        [[0, 1, 2], [0, 2, 1], [1, 0, 2], [1, 2, 0], [2, 0, 1], [2, 1, 0]];
    for order in orders {
        let canteens: Vec<CanteenRef> =
            order.iter().map(|&i| canteen(i as u64, names[i])).collect();
        let outcomes = canteens.iter().map(|_| Ok(Vec::new())).collect();
        let report = render_report(&canteens, outcomes);
        assert!(report.error.is_none());
        assert_eq!(report.sections.len(), 3);
        for (j, &i) in order.iter().enumerate() {
            assert_eq!(report.sections[j].title, names[i]);
        }
    }
}

#[test]
fn empty_meal_list_still_renders_a_section() {
    let report = render_report(&vec![canteen(1, "One")], vec![Ok(Vec::new())]);
    assert!(report.error.is_none());
    assert_eq!(report.sections.len(), 1);
    assert_eq!(report.sections[0].title, "One");
    assert!(report.sections[0].body.contains("name"));
}

#[test]
fn first_outcome_failing_renders_nothing() {
    let canteens = vec![canteen(1, "One"), canteen(2, "Two")];
    let outcomes = vec![Err("boom".to_string()), Ok(Vec::new())];
    let report = render_report(&canteens, outcomes);
    assert!(report.sections.is_empty());
    match report.error.unwrap() {
        RenderError::Fetch(name, _) => assert_eq!(name, "One"),
    }
}

#[test]
fn render_error_message_names_canteen_and_cause() {
    let e = RenderError::Fetch("Mensa Nord".to_string(), "503".to_string());
    assert_eq!(e.message(), "Error fetching meals for Mensa Nord: 503");
}
