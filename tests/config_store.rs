use std::collections::HashMap;
use wonderful::module;
use wonderful::setting::{self, SettingKind, Value};
use wonderful::store::{module_enabled_key, setting_key, StoreOp};

/// What a key-value store does with each write, for the tests.
#[derive(Default)]
struct Memory {
    entries: HashMap<String, Value>,
}

impl Memory {
    fn apply(&mut self, op: StoreOp) {
        match op {
            StoreOp::Write(k, v) => {
                self.entries.insert(k, Value::Text(v));
            }
            StoreOp::Delete(k) => {
                self.entries.remove(&k);
            }
            StoreOp::Push(k, v) => match self.entries.get_mut(&k) {
                Some(Value::List(l)) => l.push(v),
                Some(Value::Text(_)) => panic!("append to a text"),
                None => {
                    self.entries.insert(k, Value::List(vec![v]));
                }
            },
            StoreOp::Replace(k, v) => {
                if v.is_empty() {
                    self.entries.remove(&k);
                } else {
                    self.entries.insert(k, Value::List(v));
                }
            }
        }
    }

    fn flag(&self, key: &str) -> Option<u32> {
        match self.entries.get(key) {
            Some(Value::Text(t)) => t.parse().ok(),
            _ => None,
        }
    }

    fn value(&self, key: &str) -> Option<Value> {
        match self.entries.get(key) {
            Some(Value::Text(t)) => Some(Value::Text(t.clone())),
            Some(Value::List(l)) => Some(Value::List(l.clone())),
            None => None,
        }
    }
}

#[test]
fn keys_follow_the_scheme() {
    assert_eq!(setting_key(42, "test.int"), "server:42:settings:test.int");
    assert_eq!(module_enabled_key(7, "admin.log"), "server:7:modules:admin.log:enabled");
    assert_eq!(setting_key(0, "x"), "server:0:settings:x");
    assert_eq!(setting_key(u64::MAX, "x"), format!("server:{}:settings:x", u64::MAX));
}

#[test]
fn module_catalog_lookup() {
    let m = module::find("admin.log").unwrap();
    assert_eq!(m.name, "admin.log");
    assert!(m.default_enabled);
    assert!(!module::find("test").unwrap().default_enabled);
    assert!(!module::find("utility.join").unwrap().default_enabled);
    assert!(module::find("Admin.log").is_none());
    assert!(module::find("admin").is_none());
    assert!(module::find("").is_none());
}

#[test]
fn module_enabled_by_default() {
    let m = module::find("admin.log").unwrap();
    let mut store = Memory::default();
    let key = module_enabled_key(5, m.name);
    assert!(m.is_enabled(store.flag(&key)));
    store.apply(m.disable(5));
    assert!(!m.is_enabled(store.flag(&key)));
    store.apply(m.enable(5));
    assert!(store.entries.get(&key).is_none());
    assert!(m.is_enabled(store.flag(&key)));
}

#[test]
fn module_disabled_by_default() {
    let m = module::find("test").unwrap();
    let mut store = Memory::default();
    let key = module_enabled_key(5, m.name);
    assert!(!m.is_enabled(store.flag(&key)));
    store.apply(m.enable(5));
    assert!(m.is_enabled(store.flag(&key)));
    assert_eq!(store.flag(&key), Some(1));
    store.apply(m.disable(5));
    assert!(store.entries.is_empty());
    assert!(!m.is_enabled(None));
}

#[test]
fn module_state_is_per_guild() {
    let m = module::find("admin.log").unwrap();
    let mut store = Memory::default();
    store.apply(m.disable(1));
    assert!(!m.is_enabled(store.flag(&module_enabled_key(1, m.name))));
    assert!(m.is_enabled(store.flag(&module_enabled_key(2, m.name))));
}

#[test]
fn setting_catalog_lookup() {
    let cases = [
        ("test.channel", SettingKind::Channel),
        ("test.user", SettingKind::User),
        ("test.role", SettingKind::Role),
        ("test.str", SettingKind::String),
        ("test.int", SettingKind::Integer),
        ("test.ary", SettingKind::Array),
        ("comfort.join.channel", SettingKind::Channel),
        ("comfort.join.message", SettingKind::Array),
    ];
    for (name, kind) in cases {
        let s = setting::find(name).unwrap();
        assert_eq!(s.name, name);
        assert_eq!(s.kind, kind);
    }
    assert!(setting::find("test.Int").is_none());
    assert!(setting::find("nothing").is_none());
}

#[test]
fn channel_setting_checks_the_mention() {
    let s = setting::find("test.channel").unwrap();
    let mut store = Memory::default();
    assert!(s.set(9, "not-a-mention").is_none());
    let op = s.set(9, "<#12345>").unwrap();
    store.apply(op);
    assert_eq!(s.get(store.value(&setting_key(9, "test.channel"))), Some("<#12345>".to_string()));
}

#[test]
fn channel_setting_normalizes_the_id() {
    let s = setting::find("test.channel").unwrap();
    match s.set(9, "see <#007> there") {
        Some(StoreOp::Write(k, v)) => {
            assert_eq!(k, "server:9:settings:test.channel");
            assert_eq!(v, "7");
        }
        _ => panic!("expected a write"),
    }
    assert!(s.set(9, "<#>").is_none());
    assert!(s.set(9, "<#99999999999999999999>").is_none());
    assert!(s.set(9, "<@123>").is_none());
}

#[test]
fn user_and_role_settings_take_mentions() {
    let user = setting::find("test.user").unwrap();
    let role = setting::find("test.role").unwrap();
    let mut store = Memory::default();
    store.apply(user.set(3, "<@!55>").unwrap());
    store.apply(role.set(3, "<@&66>").unwrap());
    assert_eq!(user.get(store.value(&setting_key(3, "test.user"))), Some("<@55>".to_string()));
    assert_eq!(role.get(store.value(&setting_key(3, "test.role"))), Some("<@&66>".to_string()));
    assert!(user.set(3, "<#55>").is_none());
    assert!(role.set(3, "66").is_none());
}

#[test]
fn string_and_integer_settings() {
    let text = setting::find("test.str").unwrap();
    let int = setting::find("test.int").unwrap();
    let mut store = Memory::default();
    store.apply(text.set(1, "hello there").unwrap());
    assert_eq!(text.get(store.value(&setting_key(1, "test.str"))), Some("hello there".to_string()));
    assert!(int.set(1, "-3").is_none());
    assert!(int.set(1, "4x").is_none());
    assert!(int.set(1, "").is_none());
    store.apply(int.set(1, "+0042").unwrap());
    assert_eq!(int.get(store.value(&setting_key(1, "test.int"))), Some("42".to_string()));
    assert!(int.get(None).is_none());
}

#[test]
fn array_round_trip() {
    let s = setting::find("comfort.join.message").unwrap();
    let key = setting_key(8, "comfort.join.message");
    let mut store = Memory::default();
    store.apply(s.push(8, "hi").unwrap());
    store.apply(s.push(8, "bye").unwrap());
    assert_eq!(s.get(store.value(&key)), Some("[\"hi\", \"bye\"]".to_string()));
    store.apply(s.clear(8));
    assert_eq!(s.get(store.value(&key)), None);
}

#[test]
fn array_replace_and_push_only_on_arrays() {
    let s = setting::find("test.ary").unwrap();
    let key = setting_key(8, "test.ary");
    let mut store = Memory::default();
    store.apply(s.push(8, "a").unwrap());
    assert!(s.set(8, "b").is_none());
    store.apply(s.replace(8, vec!["b".to_string(), "c".to_string()]).unwrap());
    assert_eq!(s.get(store.value(&key)), Some("[\"b\", \"c\"]".to_string()));
    store.apply(s.replace(8, vec![]).unwrap());
    assert!(store.entries.is_empty());
    assert!(setting::find("test.str").unwrap().push(8, "x").is_none());
    assert!(setting::find("test.str").unwrap().replace(8, vec![]).is_none());
    assert!(s.get(Some(Value::List(vec![]))).is_none());
    assert!(s.get(Some(Value::Text("t".to_string()))).is_none());
}

#[test]
fn clear_deletes_any_kind() {
    for name in ["test.channel", "test.int", "test.ary"] {
        let s = setting::find(name).unwrap();
        match s.clear(4) {
            StoreOp::Delete(k) => assert_eq!(k, format!("server:4:settings:{}", name)),
            _ => panic!("expected a delete"),
        }
    }
}
