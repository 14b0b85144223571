use xdg::Config;
use xdg::Value;
use xdg::default_config;
use xdg::get_config;
use xdg::get_config_with_defaults;

fn home() -> Option<String> {
    Some(String::from("/home/u"))
}

fn blank() -> Option<String> {
    Some(String::new())
}

#[test]
fn test_get_config_or_default_should_generate_default_values_if_blank() {
    let old_config = get_config(blank(), blank(), blank(), blank(), blank(), blank());
    let result = get_config_with_defaults(
        home(),
        blank(),
        blank(),
        blank(),
        blank(),
        blank(),
        blank(),
    )
    .unwrap();
    let expected = default_config(home()).unwrap();

    assert_eq!(
        result,
        expected,
        "old config: \n{}\nnew config: \n{}\n",
        old_config.render(),
        result.render()
    );
}

#[test]
fn test_get_config_or_default_should_fill_in_missing_keys() {
    let old_config = get_config(None, None, None, None, None, None);
    let result = get_config_with_defaults(home(), None, None, None, None, None, None).unwrap();
    let expected = default_config(home()).unwrap();

    assert_eq!(
        result,
        expected,
        "old config: \n{}\nnew config: \n{}\n",
        old_config.render(),
        result.render()
    );
}

#[test]
fn test_get_config_or_default_should_not_generate_missing_xdg_runtime_dir() {
    let old_config = get_config(None, None, None, None, None, None);
    let new_config =
        get_config_with_defaults(home(), None, None, None, None, None, None).unwrap();
    let result = new_config.xdg_runtime_dir.clone();
    let expected = Value::NotPresent;

    assert_eq!(
        result,
        expected,
        "old config: \n{}\nnew config: \n{}\n",
        old_config.render(),
        new_config.render()
    );
}

#[test]
fn test_config_new_keeps_the_fields() {
    let c = Config::new(
        Value::Occupied(String::from("/a")),
        Value::Occupied(String::from("/b")),
        Value::Empty,
        Value::NotPresent,
        Value::Occupied(String::from("/c")),
        Value::NotPresent,
    );
    assert_eq!(c.xdg_data_home, Value::Occupied(String::from("/a")));
    assert_eq!(c.xdg_config_home, Value::Occupied(String::from("/b")));
    assert_eq!(c.xdg_data_dirs, Value::Empty);
    assert_eq!(c.xdg_config_dirs, Value::NotPresent);
    assert_eq!(c.xdg_cache_home, Value::Occupied(String::from("/c")));
    assert_eq!(c.xdg_runtime_dir, Value::NotPresent);
}
