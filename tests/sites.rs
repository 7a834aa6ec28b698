use global_pomodoro::blocked_sites::{add_url, decode_urls, encode_urls, list_urls, remove_url, SiteList};
use global_pomodoro::config::Phase;
use global_pomodoro::utils::{
    phase_cue, updated_setting, SiteBlocker, BREAK_SOUND, IDLE_SOUND, WORK_SOUND,
};

fn strings(v: &[&str]) -> Vec<String> {
    v.iter().map(|s| s.to_string()).collect()
}

#[test]
fn add_and_remove_keep_names_unique() {
    let mut s = SiteList::new();
    assert!(add_url(&mut s, "a.com"));
    assert!(add_url(&mut s, "b.com"));
    assert!(!add_url(&mut s, "a.com"));
    assert_eq!(list_urls(&s), strings(&["a.com", "b.com"]));
    assert!(s.contains("b.com"));
    assert!(remove_url(&mut s, "a.com"));
    assert!(!remove_url(&mut s, "a.com"));
    assert!(!s.contains("a.com"));
    assert_eq!(list_urls(&s), strings(&["b.com"]));
}

#[test]
fn from_entries_drops_repeats() {
    let s = SiteList::from_entries(&strings(&["a", "b", "a", "c", "b"]));
    assert_eq!(s.entries(), strings(&["a", "b", "c"]));
}

#[test]
fn decode_json_array() {
    let s = decode_urls("[\"x.com\", \"y.com\", \"x.com\"]");
    assert_eq!(list_urls(&s), strings(&["x.com", "y.com"]));
}

#[test]
fn decode_rejects_other_text() {
    assert!(list_urls(&decode_urls("")).is_empty());
    assert!(list_urls(&decode_urls("{\"a\": 1}")).is_empty());
    assert!(list_urls(&decode_urls("[1, 2]")).is_empty());
}

#[test]
fn encode_writes_json_array() {
    let mut s = SiteList::new();
    add_url(&mut s, "x.com");
    add_url(&mut s, "y.com");
    let text = encode_urls(&s);
    assert_eq!(text, "[\n  \"x.com\",\n  \"y.com\"\n]");
    assert_eq!(list_urls(&decode_urls(&text)), strings(&["x.com", "y.com"]));
    assert_eq!(encode_urls(&SiteList::new()), "[]");
}

#[test]
fn site_blocker_defaults_to_system_hosts() {
    assert_eq!(SiteBlocker::new(None).hosts_file, "/etc/hosts");
    assert_eq!(SiteBlocker::new(Some("/tmp/hosts")).hosts_file, "/tmp/hosts");
}

#[test]
fn block_adds_only_missing_lines() {
    assert_eq!(SiteBlocker::redirect_entry("a.com"), "0.0.0.0 a.com");
    let content = "127.0.0.1 localhost\n0.0.0.0 a.com\n";
    let lines = SiteBlocker::lines_to_add(content, &strings(&["a.com", "b.com"]));
    assert_eq!(lines, strings(&["0.0.0.0 b.com"]));
    assert!(SiteBlocker::lines_to_add(content, &strings(&["a.com"])).is_empty());
}

#[test]
fn unblock_removes_every_line() {
    let lines = SiteBlocker::lines_to_remove(&strings(&["a.com", "b.com"]));
    assert_eq!(lines, strings(&["0.0.0.0 a.com", "0.0.0.0 b.com"]));
}

#[test]
fn cues_per_phase() {
    let w = phase_cue(Phase::Work);
    assert!(w.block_sites);
    assert_eq!(w.sound, WORK_SOUND);
    assert_eq!(w.title, "🔨 Trabajando...");
    let b = phase_cue(Phase::ShortBreak);
    assert!(!b.block_sites);
    assert_eq!(b.sound, BREAK_SOUND);
    assert_eq!(phase_cue(Phase::LongBreak).message, "Tómate un descanso largo");
    let i = phase_cue(Phase::Idle);
    assert_eq!(i.sound, IDLE_SOUND);
    assert!(!i.block_sites);
}

#[test]
fn setting_lines() {
    assert_eq!(updated_setting("  90 \n", 25), 90);
    assert_eq!(updated_setting("\n", 25), 25);
    assert_eq!(updated_setting("abc\n", 25), 25);
    assert_eq!(updated_setting("-3", 25), 25);
    assert_eq!(updated_setting("4294967296", 25), 25);
    assert_eq!(updated_setting("4294967295", 25), 4294967295);
    assert_eq!(updated_setting("+7", 25), 7);
    assert_eq!(updated_setting("+", 25), 25);
    assert_eq!(updated_setting("007", 25), 7);
}
