use rphide::config::{value_to_string, Config, Discord};
use toml::value::Table;
use toml::Value;

fn config_with(triggers: Table) -> Config {
    Config {
        cycle: 1000,
        discord: Discord { details: "d".to_string(), status: "s".to_string() },
        triggers,
    }
}

#[test]
fn default_config_values() {
    let c = Config::default();
    assert_eq!(c.cycle, 3000);
    assert_eq!(c.discord.details, "https://github.com/Jhyub/rphide");
    assert_eq!(c.discord.status, "Hiding discord activity");
    assert!(c.triggers.is_empty());
    assert!(c.triggers().is_empty());
}

#[test]
fn triggers_one_per_entry_in_key_order() {
    let mut t = Table::new();
    t.insert("zoom".to_string(), Value::String("Meeting".to_string()));
    t.insert("game.exe".to_string(), Value::String("*".to_string()));
    t.insert("app".to_string(), Value::Integer(3));
    t.insert("Éditeur".to_string(), Value::String("x".to_string()));
    let v = config_with(t).triggers();
    let names: Vec<&str> = v.iter().map(|t| t.process_name.as_str()).collect();
    assert_eq!(names, vec!["app", "game.exe", "zoom", "Éditeur"]);
    assert_eq!(v[0].window_name, None);
    assert_eq!(v[1].window_name, None);
    assert_eq!(v[2].window_name, Some("Meeting".to_string()));
    assert_eq!(v[3].window_name, Some("x".to_string()));
}

#[test]
fn star_means_any_window() {
    assert_eq!(value_to_string(Some("*".to_string())), None);
    assert_eq!(value_to_string(Some("**".to_string())), Some("**".to_string()));
    assert_eq!(value_to_string(Some("".to_string())), Some("".to_string()));
    assert_eq!(value_to_string(None), None);
}

#[test]
fn parsed_toml_triggers() {
    let t: Table = toml::from_str("\"obs64.exe\" = \"*\"\n\"chrome\" = \"Netflix\"\n").unwrap();
    let v = config_with(t).triggers();
    assert_eq!(v.len(), 2);
    assert_eq!(v[0].process_name, "chrome");
    assert_eq!(v[0].window_name.as_deref(), Some("Netflix"));
    assert_eq!(v[1].process_name, "obs64.exe");
    assert_eq!(v[1].window_name, None);
}

#[test]
fn star_and_non_string_values_give_the_same_triggers() {
    let mut a = Table::new();
    a.insert("game.exe".to_string(), Value::String("*".to_string()));
    a.insert("chrome".to_string(), Value::String("Netflix".to_string()));
    let mut b = a.clone();
    b.insert("game.exe".to_string(), Value::Integer(1));
    let mut c = a.clone();
    c.insert("game.exe".to_string(), Value::Boolean(true));
    let ta = config_with(a).triggers();
    for other in [b, c] {
        let tb = config_with(other).triggers();
        assert_eq!(ta.len(), tb.len());
        for (x, y) in ta.iter().zip(tb.iter()) {
            assert_eq!(x.process_name, y.process_name);
            assert_eq!(x.window_name, y.window_name);
        }
    }
    assert_eq!(ta[1].process_name, "game.exe");
    assert_eq!(ta[1].window_name, None);
}
