use tinker::tabs::TabManager;

fn ids(m: &TabManager) -> Vec<usize> {
    m.get_all_tabs().iter().map(|t| t.id).collect()
}

#[test]
fn create_keeps_active_valid() {
    let mut m = TabManager::new();
    assert_eq!(m.get_active_id(), None);
    let a = m.create_tab("https://a.example");
    assert_eq!(m.get_active_id(), None);
    assert!(m.switch_to_tab(a));
    for _ in 0..5 {
        m.create_tab("about:blank");
        let active = m.get_active_id().unwrap();
        assert!(m.contains(active));
    }
    assert_eq!(m.get_active_id(), Some(a));
    let t = m.get_active_tab().unwrap();
    assert_eq!(t.url, "https://a.example");
    assert_eq!(t.title, "");
}

#[test]
fn close_missing_tab_changes_nothing() {
    let mut m = TabManager::new();
    let a = m.create_tab("a");
    let b = m.create_tab("b");
    m.switch_to_tab(b);
    let before: Vec<_> = m.get_all_tabs().to_vec();
    assert!(!m.close_tab(99));
    assert_eq!(m.get_all_tabs().to_vec(), before);
    assert_eq!(m.get_active_id(), Some(b));
    assert_eq!(ids(&m), vec![a, b]);
}

#[test]
fn closing_active_last_tab_activates_previous() {
    let mut m = TabManager::new();
    let a = m.create_tab("A");
    let b = m.create_tab("B");
    let c = m.create_tab("C");
    assert!(m.switch_to_tab(c));
    assert!(m.close_tab(c));
    assert_eq!(m.get_active_id(), Some(b));
    assert_eq!(ids(&m), vec![a, b]);
}

#[test]
fn closing_active_first_tab_activates_new_first() {
    let mut m = TabManager::new();
    let a = m.create_tab("A");
    let b = m.create_tab("B");
    let c = m.create_tab("C");
    m.switch_to_tab(a);
    assert!(m.close_tab(a));
    assert_eq!(m.get_active_id(), Some(b));
    assert_eq!(ids(&m), vec![b, c]);
}

#[test]
fn closing_inactive_tab_keeps_active() {
    let mut m = TabManager::new();
    let a = m.create_tab("A");
    let b = m.create_tab("B");
    m.switch_to_tab(a);
    assert!(m.close_tab(b));
    assert_eq!(m.get_active_id(), Some(a));
}

#[test]
fn closing_only_tab_clears_active() {
    let mut m = TabManager::new();
    let a = m.create_tab("A");
    m.switch_to_tab(a);
    assert!(m.close_tab(a));
    assert_eq!(m.get_active_id(), None);
    assert!(m.get_active_tab().is_none());
    assert!(m.get_all_tabs().is_empty());
}

#[test]
fn switch_to_missing_tab_is_refused() {
    let mut m = TabManager::new();
    let a = m.create_tab("A");
    m.switch_to_tab(a);
    assert!(!m.switch_to_tab(a + 7));
    assert_eq!(m.get_active_id(), Some(a));
}

#[test]
fn ids_are_never_reused() {
    let mut m = TabManager::new();
    let first = m.create_tab("A");
    assert!(m.close_tab(first));
    let second = m.create_tab("B");
    assert_ne!(first, second);
    assert_eq!(second, first + 1);
}

#[test]
fn active_tab_fields_can_be_set() {
    let mut m = TabManager::new();
    assert_eq!(m.set_active_url("x"), None);
    let a = m.create_tab("A");
    m.switch_to_tab(a);
    assert_eq!(m.set_active_url("https://b.example"), Some(a));
    assert_eq!(m.set_active_title("Bee"), Some(a));
    let t = m.get_active_tab().unwrap();
    assert_eq!(t.url, "https://b.example");
    assert_eq!(t.title, "Bee");
}
