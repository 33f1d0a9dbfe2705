use anna::config::Config;
use anna::preprocessor::{macro_calls, process};
use anna::registry::{build_registry, date_text, split_command, Producer};
use anna::date::{CalendarDate, LocalTime};

fn vals(v: &[Option<&str>]) -> Vec<Option<String>> {
    v.iter().map(|x| x.map(|s| s.to_string())).collect()
}

#[test]
fn plain_text_is_unchanged() {
    assert_eq!(macro_calls("no macros here").len(), 0);
    assert_eq!(process("no macros here", &vals(&[])), "no macros here");
}

#[test]
fn known_macro_is_replaced() {
    assert_eq!(macro_calls("$DATE!"), vec!["DATE".to_string()]);
    assert_eq!(process("$DATE!", &vals(&[Some("2024-01-01")])), "2024-01-01!");
}

#[test]
fn unknown_macro_is_dropped_terminator_kept() {
    assert_eq!(macro_calls("$UNKNOWN."), vec!["UNKNOWN".to_string()]);
    assert_eq!(process("$UNKNOWN.", &vals(&[None])), ".");
}

#[test]
fn lone_trigger_expands_to_nothing() {
    assert_eq!(macro_calls("$"), vec!["".to_string()]);
    assert_eq!(process("$", &vals(&[None])), "");
}

#[test]
fn macro_at_end_of_text_is_expanded() {
    assert_eq!(process("Today: $DATE", &vals(&[Some("2024-01-01")])), "Today: 2024-01-01");
}

#[test]
fn expanded_text_without_trigger_is_fixed_point() {
    let once = process("a $X b", &vals(&[Some("y")]));
    assert_eq!(once, "a y b");
    assert_eq!(process(&once, &vals(&[])), once);
}

#[test]
fn repeated_macro_takes_one_value_per_occurrence() {
    assert_eq!(macro_calls("$A $A"), vec!["A".to_string(), "A".to_string()]);
    assert_eq!(process("$A $A", &vals(&[Some("1"), Some("2")])), "1 2");
}

#[test]
fn trigger_while_collecting_finishes_the_name() {
    assert_eq!(macro_calls("$A$B"), vec!["A".to_string()]);
    assert_eq!(process("$A$B", &vals(&[Some("x")])), "x$B");
}

#[test]
fn non_ascii_letters_belong_to_names() {
    assert_eq!(macro_calls("$Ünï ok"), vec!["Ünï".to_string()]);
}

#[test]
fn missing_values_expand_to_nothing() {
    assert_eq!(process("[$A]", &vals(&[])), "[]");
}

fn config_with(macros: Vec<(&str, &str)>) -> Config {
    let mut c = Config::default();
    for (n, m) in macros {
        c.add_macro(n.to_string(), m.to_string());
    }
    c
}

#[test]
fn registry_has_date_builtin() {
    let r = build_registry(&Config::default());
    assert!(matches!(r.get(&"DATE".to_string()), Some(Producer::Date)));
    assert!(r.get(&"WEATHER".to_string()).is_none());
}

#[test]
fn user_macro_overrides_builtin() {
    let r = build_registry(&config_with(vec![("DATE", "date -I")]));
    match r.get(&"DATE".to_string()) {
        Some(Producer::Command(c)) => assert_eq!(c, "date -I"),
        other => panic!("unexpected {:?}", other),
    }
}

#[test]
fn producers_follow_document_order() {
    let r = build_registry(&config_with(vec![("WEATHER", "echo sunny")]));
    let p = r.producers_for("Day: $DATE, $WEATHER, $NONE.");
    assert_eq!(p.len(), 3);
    assert!(matches!(p[0], Some(Producer::Date)));
    assert!(matches!(&p[1], Some(Producer::Command(c)) if c == "echo sunny"));
    assert!(p[2].is_none());
}

#[test]
fn template_with_date_and_custom_macro() {
    let template = "Day: $DATE, $WEATHER";
    let r = build_registry(&config_with(vec![("WEATHER", "echo sunny")]));
    let now = LocalTime { date: CalendarDate::new(2024, 5, 1).unwrap(), hour: 12 };
    let values: Vec<Option<String>> = r
        .producers_for(template)
        .iter()
        .map(|p| match p {
            Some(Producer::Date) => date_text(now, 0),
            Some(Producer::Command(_)) => Some("sunny".to_string()),
            None => None,
        })
        .collect();
    assert_eq!(process(template, &values), "Day: 2024-05-01, sunny");
}

#[test]
fn command_line_is_split_at_white_space() {
    let (p, a) = split_command("  echo  hello\tworld ").unwrap();
    assert_eq!(p, "echo");
    assert_eq!(a, vec!["hello".to_string(), "world".to_string()]);
    assert!(split_command("   ").is_none());
    assert!(split_command("").is_none());
}
