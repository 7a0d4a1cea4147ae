use mensa_report::table::{format_table, DisplayRow};

fn row(name: &str, category: &str, prices: &str, notes: &str) -> DisplayRow {
    DisplayRow {
        name: name.to_string(),
        category: category.to_string(),
        prices: prices.to_string(),
        notes: notes.to_string(),
    }
}

#[test]
fn zero_rows_still_draw_borders_and_headers() {
    let out = format_table(&Vec::new());
    let lines: Vec<&str> = out.lines().collect();
    assert_eq!(lines.len(), 3);
    assert!(lines[0].chars().all(|c| !c.is_alphanumeric()));
    assert!(lines[1].contains("name"));
    assert!(lines[1].contains("category"));
    assert!(lines[1].contains("prices"));
    assert!(lines[1].contains("notes"));
    assert!(lines[2].chars().all(|c| !c.is_alphanumeric()));
    assert!(out.chars().any(|c| !c.is_ascii()));
}

#[test]
fn one_row_adds_exactly_one_data_band() {
    let out = format_table(&vec![row("Soup", "Starter", "1.20", "hot")]);
    assert!(out.contains("Soup"));
    assert!(out.contains("Starter"));
    assert!(out.contains("1.20"));
    assert!(out.contains("hot"));
}

#[test]
fn long_first_column_wraps_at_word_boundaries() {
    let out = format_table(&vec![row("hello world foo", "Main", "2.00", "x")]);
    assert!(!out.contains("hello world"));
    assert!(out.contains("hello"));
    assert!(out.contains("world foo"));
}

#[test]
fn long_last_column_wraps_at_word_boundaries() {
    let out = format_table(&vec![row("Soup", "Main", "2.00", "vegan gluten free")]);
    assert!(!out.contains("vegan gluten"));
    assert!(out.contains("vegan"));
    assert!(out.contains("gluten"));
}

#[test]
fn interior_columns_are_not_wrapped() {
    let wide = "a rather long category text";
    let out = format_table(&vec![row("Soup", wide, "2.00", "x")]);
    assert!(out.contains(wide));
}
