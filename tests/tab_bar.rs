use tinker::event::BrowserCommand;
use tinker::tab_ui::{TabBar, TabCommand};

#[test]
fn tab_bar_follows_reports() {
    let mut bar = TabBar::new();
    assert_eq!(bar.get_height(), 40);
    bar.add_tab(1, "One", "https://one.example");
    bar.add_tab(2, "Two", "https://two.example");
    bar.set_active_tab(2);
    assert!(!bar.tabs()[0].active);
    assert!(bar.tabs()[1].active);
    bar.update_tab_title(1, "Uno");
    bar.update_tab_url(2, "https://dos.example");
    assert_eq!(bar.tabs()[0].title, "Uno");
    assert_eq!(bar.tabs()[1].url, "https://dos.example");
    bar.remove_tab(1);
    assert_eq!(bar.tabs().len(), 1);
    assert_eq!(bar.tabs()[0].id, 2);
    bar.remove_tab(9);
    assert_eq!(bar.tabs().len(), 1);
}

#[test]
fn tab_commands_become_browser_commands() {
    assert_eq!(
        TabCommand::Create { url: "u".into() }.into_command(),
        BrowserCommand::CreateTab { url: "u".into() }
    );
    assert_eq!(TabCommand::Close { id: 3 }.into_command(), BrowserCommand::CloseTab { id: 3 });
    assert_eq!(TabCommand::Switch { id: 4 }.into_command(), BrowserCommand::SwitchTab { id: 4 });
}
