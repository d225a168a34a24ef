use webview_manager::geometry::{FrameRect, WindowSize};
use webview_manager::manager::{
    ConstructionError, HostEnvironment, NativeClasses, NativeCommand, WebViewManager,
};

fn screen() -> FrameRect {
    FrameRect { x: 0, y: 0, width: 1920, height: 1080 }
}

fn all_classes() -> NativeClasses {
    NativeClasses { configuration: true, content_view: true, data_store: true }
}

fn native_manager(address: &str) -> (WebViewManager, Vec<NativeCommand>) {
    WebViewManager::new(
        HostEnvironment::Native(all_classes()),
        screen(),
        WindowSize { width: 480, height: 640 },
        String::from(address),
    )
    .expect("native construction with every class resolved succeeds")
}

fn stand_in_manager(address: &str) -> WebViewManager {
    let (manager, commands) = WebViewManager::new(
        HostEnvironment::NoNativeUi,
        screen(),
        WindowSize { width: 480, height: 640 },
        String::from(address),
    )
    .expect("stand-in construction always succeeds");
    assert!(commands.is_empty());
    manager
}

fn count_loads(commands: &[NativeCommand]) -> usize {
    commands
        .iter()
        .filter(|c| matches!(c, NativeCommand::IssueLoad { .. }))
        .count()
}

#[test]
fn native_construction_presents_and_loads() {
    let (manager, commands) = native_manager("https://example.com");
    assert!(manager.is_visible());
    assert_eq!(manager.current_address(), "https://example.com");
    assert_eq!(commands.len(), 4);
    assert!(matches!(
        commands[0],
        NativeCommand::CreateWindow {
            frame: FrameRect { x: 100, y: 340, width: 480, height: 640 }
        }
    ));
    assert!(matches!(
        commands[1],
        NativeCommand::AttachContentView {
            size: WindowSize { width: 480, height: 640 },
            persistent_storage: true
        }
    ));
    assert!(matches!(
        &commands[2],
        NativeCommand::IssueLoad { address } if address == "https://example.com"
    ));
    assert!(matches!(commands[3], NativeCommand::Present));
}

#[test]
fn stand_in_construction_is_not_visible() {
    let manager = stand_in_manager("https://example.com");
    assert!(!manager.is_visible());
    assert_eq!(manager.current_address(), "https://example.com");
}

#[test]
fn construction_reports_the_first_missing_class() {
    let attempt = |classes: NativeClasses| {
        WebViewManager::new(
            HostEnvironment::Native(classes),
            screen(),
            WindowSize { width: 480, height: 640 },
            String::from("https://example.com"),
        )
    };
    let no_configuration =
        NativeClasses { configuration: false, content_view: false, data_store: false };
    assert!(matches!(
        attempt(no_configuration),
        Err(ConstructionError::MissingConfigurationClass)
    ));
    let no_content_view =
        NativeClasses { configuration: true, content_view: false, data_store: false };
    assert!(matches!(
        attempt(no_content_view),
        Err(ConstructionError::MissingContentViewClass)
    ));
    let no_data_store =
        NativeClasses { configuration: true, content_view: true, data_store: false };
    assert!(matches!(attempt(no_data_store), Err(ConstructionError::MissingDataStoreClass)));
}

#[test]
fn navigate_to_same_address_is_a_no_op() {
    let (mut manager, _) = native_manager("https://example.com");
    let commands = manager.navigate(String::from("https://example.com"));
    assert!(commands.is_empty());
    assert_eq!(manager.current_address(), "https://example.com");
    assert!(manager.is_visible());
}

#[test]
fn navigate_to_two_distinct_addresses_loads_twice() {
    let (mut manager, _) = native_manager("https://example.com");
    let first = manager.navigate(String::from("https://example.com/a"));
    let second = manager.navigate(String::from("https://example.com/b"));
    assert_eq!(count_loads(&first) + count_loads(&second), 2);
    assert!(matches!(
        &second[0],
        NativeCommand::IssueLoad { address } if address == "https://example.com/b"
    ));
    assert_eq!(manager.current_address(), "https://example.com/b");
}

#[test]
fn example_scenario_one_more_load() {
    let (mut manager, construction) = native_manager("https://example.com");
    assert_eq!(manager.current_address(), "https://example.com");
    assert_eq!(count_loads(&construction), 1);
    let commands = manager.navigate(String::from("https://example.com/page2"));
    assert_eq!(manager.current_address(), "https://example.com/page2");
    assert_eq!(count_loads(&commands), 1);
    assert_eq!(commands.len(), 1);
}

#[test]
fn set_hidden_drives_visibility() {
    let (mut manager, _) = native_manager("https://example.com");
    let hide = manager.set_hidden(true);
    assert!(!manager.is_visible());
    assert_eq!(hide.len(), 1);
    assert!(matches!(hide[0], NativeCommand::Hide));
    let show = manager.set_hidden(false);
    assert!(manager.is_visible());
    assert_eq!(show.len(), 1);
    assert!(matches!(show[0], NativeCommand::Present));
}

#[test]
fn set_hidden_twice_equals_once() {
    let (mut once, _) = native_manager("https://example.com");
    let (mut twice, _) = native_manager("https://example.com");
    once.set_hidden(true);
    twice.set_hidden(true);
    let repeat = twice.set_hidden(true);
    assert_eq!(once.is_visible(), twice.is_visible());
    assert_eq!(once.current_address(), twice.current_address());
    assert!(matches!(repeat[0], NativeCommand::Hide));
}

#[test]
fn dispose_of_presented_window_closes_then_releases() {
    let (mut manager, _) = native_manager("https://example.com");
    assert!(manager.is_visible());
    let commands = manager.dispose();
    assert_eq!(commands.len(), 2);
    assert!(matches!(commands[0], NativeCommand::Close));
    assert!(matches!(commands[1], NativeCommand::Release));
    assert!(!manager.is_visible());
}

#[test]
fn dispose_of_hidden_window_only_releases() {
    let (mut manager, _) = native_manager("https://example.com");
    manager.set_hidden(true);
    let commands = manager.dispose();
    assert_eq!(commands.len(), 1);
    assert!(matches!(commands[0], NativeCommand::Release));
}

#[test]
fn dispose_twice_never_double_releases() {
    let (mut manager, _) = native_manager("https://example.com");
    let first = manager.dispose();
    assert_eq!(first.len(), 2);
    let second = manager.dispose();
    assert!(second.is_empty());
    assert!(!manager.is_visible());
}

#[test]
fn stand_in_dispose_asks_for_nothing() {
    let mut manager = stand_in_manager("https://example.com");
    assert!(manager.dispose().is_empty());
    assert!(manager.dispose().is_empty());
}

#[test]
fn stand_in_navigation_is_unconditional_and_silent() {
    let mut manager = stand_in_manager("https://example.com");
    let same = manager.navigate(String::from("https://example.com"));
    assert!(same.is_empty());
    assert_eq!(manager.current_address(), "https://example.com");
    let other = manager.navigate(String::from("https://example.com/page2"));
    assert!(other.is_empty());
    assert_eq!(manager.current_address(), "https://example.com/page2");
    assert!(!manager.is_visible());
}

#[test]
fn stand_in_visibility_toggle_is_a_no_op() {
    let mut manager = stand_in_manager("https://example.com");
    assert!(manager.set_hidden(true).is_empty());
    assert!(!manager.is_visible());
    assert!(manager.set_hidden(false).is_empty());
    assert!(!manager.is_visible());
}
