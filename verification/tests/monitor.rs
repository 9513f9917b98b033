use errno::Errno;
use hidmon::{
    Call, Error, HidCallback, HidMonitor, HidType, HookRequest, HookToken, Registry,
};
use std::sync::{Arc, Mutex};

/// The code with which the stand-in below refuses a second installation.
const ALREADY_INSTALLED: i32 = -2147023438;

struct Counter {
    hits: Arc<Mutex<u32>>,
}

impl Call for Counter {
    fn callback(&mut self, _n_code: i32, _w_param: usize, _l_param: isize) {
        *self.hits.lock().unwrap() += 1;
    }
}

fn counter() -> (HidCallback, Arc<Mutex<u32>>) {
    let hits = Arc::new(Mutex::new(0));
    let callback = HidCallback(Arc::new(Mutex::new(Box::new(Counter { hits: hits.clone() }))));
    (callback, hits)
}

fn hits(counter: &Arc<Mutex<u32>>) -> u32 {
    *counter.lock().unwrap()
}

/// Stands in for the operating system: hands out tokens, counts calls, and,
/// when `exclusive`, refuses a second hook of a kind.
struct Os {
    exclusive: bool,
    keyboard: Vec<usize>,
    mouse: Vec<usize>,
    next: usize,
    installs: u32,
    uninstalls: u32,
    fail_uninstall: Option<Error>,
}

impl Os {
    fn new(exclusive: bool) -> Os {
        Os {
            exclusive,
            keyboard: Vec::new(),
            mouse: Vec::new(),
            next: 1,
            installs: 0,
            uninstalls: 0,
            fail_uninstall: None,
        }
    }

    fn slot(&mut self, hid_type: HidType) -> &mut Vec<usize> {
        match hid_type {
            HidType::Keyboard => &mut self.keyboard,
            HidType::Mouse => &mut self.mouse,
        }
    }

    fn install(&mut self, hid_type: HidType) -> Result<HookToken, Error> {
        self.installs += 1;
        if self.exclusive && !self.slot(hid_type).is_empty() {
            return Err(Error::Windows(ALREADY_INSTALLED));
        }
        let raw = self.next;
        self.next += 1;
        self.slot(hid_type).push(raw);
        Ok(HookToken::new(raw).unwrap())
    }

    fn uninstall(&mut self, token: HookToken) -> Result<(), Error> {
        self.uninstalls += 1;
        if let Some(error) = self.fail_uninstall.take() {
            return Err(error);
        }
        self.keyboard.retain(|raw| *raw != token.raw());
        self.mouse.retain(|raw| *raw != token.raw());
        Ok(())
    }
}

/// Enables as a caller does: asks the monitor, asks the operating system if
/// told to, and reports the answer.
fn enable(
    monitor: &mut HidMonitor,
    registry: &mut Registry,
    os: &mut Os,
    hid_type: HidType,
) -> Result<(), Error> {
    match monitor.enable(hid_type) {
        HookRequest::Install(kind) => {
            assert_eq!(kind, hid_type);
            let installed = os.install(kind);
            monitor.finish_enable(registry, hid_type, installed)
        }
        HookRequest::Nothing => Ok(()),
        HookRequest::Uninstall(_) => unreachable!("enabling never asks for a removal"),
    }
}

fn disable(
    monitor: &mut HidMonitor,
    registry: &mut Registry,
    os: &mut Os,
    hid_type: HidType,
) -> Result<(), Error> {
    match monitor.disable(registry, hid_type) {
        HookRequest::Uninstall(token) => os.uninstall(token),
        HookRequest::Nothing => Ok(()),
        HookRequest::Install(_) => unreachable!("disabling never asks for an installation"),
    }
}

#[test]
fn no_token_stands_for_no_hook() {
    assert!(HookToken::new(0).is_none());
    assert!(HookToken::new(usize::MAX).is_none());
}

#[test]
fn a_token_keeps_its_raw_value() {
    assert_eq!(HookToken::new(1).unwrap().raw(), 1);
    assert_eq!(HookToken::new(0x7ff6_1234).unwrap().raw(), 0x7ff6_1234);
    assert_eq!(HookToken::new(usize::MAX - 1).unwrap().raw(), usize::MAX - 1);
    assert_eq!(HookToken::new(8), HookToken::new(8));
    assert_ne!(HookToken::new(8), HookToken::new(9));
}

#[test]
fn a_new_monitor_asks_to_install() {
    let monitor = HidMonitor::default();
    assert_eq!(monitor.enable(HidType::Keyboard), HookRequest::Install(HidType::Keyboard));
    assert_eq!(monitor.enable(HidType::Mouse), HookRequest::Install(HidType::Mouse));
}

#[test]
fn a_new_monitor_has_nothing_to_disable() {
    let mut monitor = HidMonitor::default();
    let mut registry = Registry::new();
    assert_eq!(monitor.disable(&mut registry, HidType::Keyboard), HookRequest::Nothing);
    assert_eq!(monitor.disable(&mut registry, HidType::Mouse), HookRequest::Nothing);
}

#[test]
fn enabling_registers_every_known_callback() {
    let mut monitor = HidMonitor::default();
    let mut registry = Registry::new();
    let mut os = Os::new(true);
    let (first, first_count) = counter();
    let (second, second_count) = counter();
    monitor.add_callback(&mut registry, HidType::Keyboard, first);
    monitor.add_callback(&mut registry, HidType::Keyboard, second);
    assert_eq!(registry.len(HidType::Keyboard), 0);
    assert_eq!(enable(&mut monitor, &mut registry, &mut os, HidType::Keyboard), Ok(()));
    assert_eq!(registry.len(HidType::Keyboard), 2);
    assert_eq!(registry.len(HidType::Mouse), 0);
    assert_eq!(registry.for_each_live(HidType::Keyboard, 0, 0, 0), 2);
    assert_eq!(hits(&first_count), 1);
    assert_eq!(hits(&second_count), 1);
}

#[test]
fn enabling_twice_installs_once() {
    let mut monitor = HidMonitor::default();
    let mut registry = Registry::new();
    let mut os = Os::new(true);
    let (callback, _) = counter();
    monitor.add_callback(&mut registry, HidType::Mouse, callback);
    assert_eq!(enable(&mut monitor, &mut registry, &mut os, HidType::Mouse), Ok(()));
    let after_first: Vec<u64> =
        registry.snapshot(HidType::Mouse).iter().map(|entry| entry.0).collect();
    assert_eq!(monitor.enable(HidType::Mouse), HookRequest::Nothing);
    assert_eq!(enable(&mut monitor, &mut registry, &mut os, HidType::Mouse), Ok(()));
    let after_second: Vec<u64> =
        registry.snapshot(HidType::Mouse).iter().map(|entry| entry.0).collect();
    assert_eq!(os.installs, 1);
    assert_eq!(after_first.len(), 1);
    assert_eq!(after_first, after_second);
}

#[test]
fn enabling_one_kind_leaves_the_other() {
    let mut monitor = HidMonitor::default();
    let mut registry = Registry::new();
    let mut os = Os::new(true);
    let (keyboard, _) = counter();
    let (mouse, _) = counter();
    monitor.add_callback(&mut registry, HidType::Keyboard, keyboard);
    monitor.add_callback(&mut registry, HidType::Mouse, mouse);
    assert_eq!(enable(&mut monitor, &mut registry, &mut os, HidType::Mouse), Ok(()));
    assert_eq!(registry.len(HidType::Mouse), 1);
    assert_eq!(registry.len(HidType::Keyboard), 0);
    assert_eq!(monitor.enable(HidType::Keyboard), HookRequest::Install(HidType::Keyboard));
    assert_eq!(monitor.enable(HidType::Mouse), HookRequest::Nothing);
}

#[test]
fn disabling_while_uninstalled_asks_nothing() {
    let mut monitor = HidMonitor::default();
    let mut registry = Registry::new();
    let mut os = Os::new(true);
    let (callback, _) = counter();
    monitor.add_callback(&mut registry, HidType::Mouse, callback);
    assert_eq!(disable(&mut monitor, &mut registry, &mut os, HidType::Mouse), Ok(()));
    assert_eq!(os.uninstalls, 0);
    assert_eq!(registry.len(HidType::Mouse), 0);
    assert_eq!(monitor.enable(HidType::Mouse), HookRequest::Install(HidType::Mouse));
}

#[test]
fn disabling_hands_back_the_installed_token() {
    let mut monitor = HidMonitor::default();
    let mut registry = Registry::new();
    let token = HookToken::new(0x5150).unwrap();
    assert_eq!(monitor.finish_enable(&mut registry, HidType::Keyboard, Ok(token)), Ok(()));
    assert_eq!(monitor.disable(&mut registry, HidType::Keyboard), HookRequest::Uninstall(token));
    assert_eq!(monitor.disable(&mut registry, HidType::Keyboard), HookRequest::Nothing);
}

#[test]
fn disabling_twice_uninstalls_once() {
    let mut monitor = HidMonitor::default();
    let mut registry = Registry::new();
    let mut os = Os::new(true);
    assert_eq!(enable(&mut monitor, &mut registry, &mut os, HidType::Mouse), Ok(()));
    assert_eq!(disable(&mut monitor, &mut registry, &mut os, HidType::Mouse), Ok(()));
    assert_eq!(disable(&mut monitor, &mut registry, &mut os, HidType::Mouse), Ok(()));
    assert_eq!(os.uninstalls, 1);
    assert!(os.mouse.is_empty());
}

#[test]
fn enable_disable_enable_reactivates_the_callbacks() {
    let mut monitor = HidMonitor::default();
    let mut registry = Registry::new();
    let mut os = Os::new(true);
    let (first, first_count) = counter();
    let (second, second_count) = counter();
    monitor.add_callback(&mut registry, HidType::Mouse, first);
    monitor.add_callback(&mut registry, HidType::Mouse, second);

    assert_eq!(enable(&mut monitor, &mut registry, &mut os, HidType::Mouse), Ok(()));
    assert_eq!(registry.len(HidType::Mouse), 2);

    assert_eq!(disable(&mut monitor, &mut registry, &mut os, HidType::Mouse), Ok(()));
    assert_eq!(registry.len(HidType::Mouse), 0);
    assert_eq!(registry.for_each_live(HidType::Mouse, 0, 0, 0), 0);

    assert_eq!(enable(&mut monitor, &mut registry, &mut os, HidType::Mouse), Ok(()));
    assert_eq!(registry.len(HidType::Mouse), 2);
    assert_eq!(registry.for_each_live(HidType::Mouse, 0, 0, 0), 2);
    assert_eq!(hits(&first_count), 1);
    assert_eq!(hits(&second_count), 1);
    assert_eq!(os.installs, 2);
    assert_eq!(os.uninstalls, 1);
}

#[test]
fn a_callback_added_while_installed_is_live_at_once() {
    let mut monitor = HidMonitor::default();
    let mut registry = Registry::new();
    let mut os = Os::new(true);
    assert_eq!(enable(&mut monitor, &mut registry, &mut os, HidType::Keyboard), Ok(()));
    assert_eq!(registry.for_each_live(HidType::Keyboard, 0, 0, 0), 0);
    let (callback, count) = counter();
    monitor.add_callback(&mut registry, HidType::Keyboard, callback);
    assert_eq!(registry.len(HidType::Keyboard), 1);
    assert_eq!(registry.for_each_live(HidType::Keyboard, 0, 0, 0), 1);
    assert_eq!(hits(&count), 1);
    assert_eq!(os.installs, 1);
}

#[test]
fn a_callback_added_while_uninstalled_waits_for_enable() {
    let mut monitor = HidMonitor::default();
    let mut registry = Registry::new();
    let mut os = Os::new(true);
    let (callback, count) = counter();
    monitor.add_callback(&mut registry, HidType::Mouse, callback);
    assert_eq!(registry.len(HidType::Mouse), 0);
    assert_eq!(registry.for_each_live(HidType::Mouse, 0, 0, 0), 0);
    assert_eq!(hits(&count), 0);
    assert_eq!(enable(&mut monitor, &mut registry, &mut os, HidType::Mouse), Ok(()));
    assert_eq!(registry.for_each_live(HidType::Mouse, 0, 0, 0), 1);
    assert_eq!(hits(&count), 1);
}

#[test]
fn a_callback_added_after_disable_waits_for_the_next_enable() {
    let mut monitor = HidMonitor::default();
    let mut registry = Registry::new();
    let mut os = Os::new(true);
    assert_eq!(enable(&mut monitor, &mut registry, &mut os, HidType::Mouse), Ok(()));
    assert_eq!(disable(&mut monitor, &mut registry, &mut os, HidType::Mouse), Ok(()));
    let (callback, count) = counter();
    monitor.add_callback(&mut registry, HidType::Mouse, callback);
    assert_eq!(registry.for_each_live(HidType::Mouse, 0, 0, 0), 0);
    assert_eq!(enable(&mut monitor, &mut registry, &mut os, HidType::Mouse), Ok(()));
    assert_eq!(registry.for_each_live(HidType::Mouse, 0, 0, 0), 1);
    assert_eq!(hits(&count), 1);
}

#[test]
fn the_same_callback_added_twice_runs_twice() {
    let mut monitor = HidMonitor::default();
    let mut registry = Registry::new();
    let mut os = Os::new(true);
    let (callback, count) = counter();
    monitor.add_callback(&mut registry, HidType::Keyboard, callback.clone());
    monitor.add_callback(&mut registry, HidType::Keyboard, callback);
    assert_eq!(enable(&mut monitor, &mut registry, &mut os, HidType::Keyboard), Ok(()));
    assert_eq!(registry.for_each_live(HidType::Keyboard, 0, 0, 0), 2);
    assert_eq!(hits(&count), 2);
}

#[test]
fn clearing_deactivates_but_keeps_the_hook() {
    let mut monitor = HidMonitor::default();
    let mut registry = Registry::new();
    let mut os = Os::new(true);
    let (callback, count) = counter();
    monitor.add_callback(&mut registry, HidType::Mouse, callback);
    assert_eq!(enable(&mut monitor, &mut registry, &mut os, HidType::Mouse), Ok(()));
    monitor.clear_callbacks(&mut registry, HidType::Mouse);
    assert_eq!(registry.len(HidType::Mouse), 0);
    assert_eq!(registry.for_each_live(HidType::Mouse, 0, 0, 0), 0);
    assert_eq!(hits(&count), 0);
    assert_eq!(monitor.enable(HidType::Mouse), HookRequest::Nothing);
    assert_eq!(os.uninstalls, 0);
}

#[test]
fn cleared_callbacks_do_not_come_back() {
    let mut monitor = HidMonitor::default();
    let mut registry = Registry::new();
    let mut os = Os::new(true);
    let (old, old_count) = counter();
    monitor.add_callback(&mut registry, HidType::Mouse, old);
    assert_eq!(enable(&mut monitor, &mut registry, &mut os, HidType::Mouse), Ok(()));
    monitor.clear_callbacks(&mut registry, HidType::Mouse);
    let (new, new_count) = counter();
    monitor.add_callback(&mut registry, HidType::Mouse, new);
    assert_eq!(registry.for_each_live(HidType::Mouse, 0, 0, 0), 1);
    assert_eq!(disable(&mut monitor, &mut registry, &mut os, HidType::Mouse), Ok(()));
    assert_eq!(enable(&mut monitor, &mut registry, &mut os, HidType::Mouse), Ok(()));
    assert_eq!(registry.for_each_live(HidType::Mouse, 0, 0, 0), 1);
    assert_eq!(hits(&old_count), 0);
    assert_eq!(hits(&new_count), 2);
}

#[test]
fn clearing_while_uninstalled_forgets_the_callbacks() {
    let mut monitor = HidMonitor::default();
    let mut registry = Registry::new();
    let mut os = Os::new(true);
    let (callback, count) = counter();
    monitor.add_callback(&mut registry, HidType::Keyboard, callback);
    monitor.clear_callbacks(&mut registry, HidType::Keyboard);
    assert_eq!(enable(&mut monitor, &mut registry, &mut os, HidType::Keyboard), Ok(()));
    assert_eq!(registry.len(HidType::Keyboard), 0);
    assert_eq!(registry.for_each_live(HidType::Keyboard, 0, 0, 0), 0);
    assert_eq!(hits(&count), 0);
}

#[test]
fn clearing_one_kind_leaves_the_other() {
    let mut monitor = HidMonitor::default();
    let mut registry = Registry::new();
    let mut os = Os::new(true);
    let (keyboard, keyboard_count) = counter();
    let (mouse, mouse_count) = counter();
    monitor.add_callback(&mut registry, HidType::Keyboard, keyboard);
    monitor.add_callback(&mut registry, HidType::Mouse, mouse);
    assert_eq!(enable(&mut monitor, &mut registry, &mut os, HidType::Keyboard), Ok(()));
    assert_eq!(enable(&mut monitor, &mut registry, &mut os, HidType::Mouse), Ok(()));
    monitor.clear_callbacks(&mut registry, HidType::Keyboard);
    assert_eq!(registry.for_each_live(HidType::Keyboard, 0, 0, 0), 0);
    assert_eq!(registry.for_each_live(HidType::Mouse, 0, 0, 0), 1);
    assert_eq!(hits(&keyboard_count), 0);
    assert_eq!(hits(&mouse_count), 1);
}

#[test]
fn two_monitors_both_see_every_event() {
    let mut registry = Registry::new();
    let mut os = Os::new(false);
    let mut first = HidMonitor::default();
    let mut second = HidMonitor::default();
    let (first_callback, first_count) = counter();
    let (second_callback, second_count) = counter();
    first.add_callback(&mut registry, HidType::Mouse, first_callback);
    second.add_callback(&mut registry, HidType::Mouse, second_callback);
    assert_eq!(enable(&mut first, &mut registry, &mut os, HidType::Mouse), Ok(()));
    assert_eq!(enable(&mut second, &mut registry, &mut os, HidType::Mouse), Ok(()));

    for _ in 0..3 {
        assert_eq!(registry.for_each_live(HidType::Mouse, 0, 0, 0), 2);
    }
    assert_eq!(hits(&first_count), 3);
    assert_eq!(hits(&second_count), 3);

    assert_eq!(disable(&mut first, &mut registry, &mut os, HidType::Mouse), Ok(()));
    assert_eq!(registry.for_each_live(HidType::Mouse, 0, 0, 0), 1);
    assert_eq!(hits(&first_count), 3);
    assert_eq!(hits(&second_count), 4);

    assert_eq!(disable(&mut second, &mut registry, &mut os, HidType::Mouse), Ok(()));
    assert_eq!(registry.for_each_live(HidType::Mouse, 0, 0, 0), 0);
    assert_eq!(hits(&second_count), 4);
}

#[test]
fn one_callback_may_serve_two_monitors() {
    let mut registry = Registry::new();
    let mut os = Os::new(false);
    let mut first = HidMonitor::default();
    let mut second = HidMonitor::default();
    let (callback, count) = counter();
    first.add_callback(&mut registry, HidType::Keyboard, callback.clone());
    second.add_callback(&mut registry, HidType::Keyboard, callback);
    assert_eq!(enable(&mut first, &mut registry, &mut os, HidType::Keyboard), Ok(()));
    assert_eq!(enable(&mut second, &mut registry, &mut os, HidType::Keyboard), Ok(()));
    assert_eq!(registry.for_each_live(HidType::Keyboard, 0, 0, 0), 2);
    assert_eq!(hits(&count), 2);
    assert_eq!(disable(&mut second, &mut registry, &mut os, HidType::Keyboard), Ok(()));
    assert_eq!(registry.for_each_live(HidType::Keyboard, 0, 0, 0), 1);
    assert_eq!(hits(&count), 3);
}

#[test]
fn clearing_one_monitor_leaves_the_other() {
    let mut registry = Registry::new();
    let mut os = Os::new(false);
    let mut first = HidMonitor::default();
    let mut second = HidMonitor::default();
    let (first_callback, first_count) = counter();
    let (second_callback, second_count) = counter();
    first.add_callback(&mut registry, HidType::Keyboard, first_callback);
    second.add_callback(&mut registry, HidType::Keyboard, second_callback);
    assert_eq!(enable(&mut first, &mut registry, &mut os, HidType::Keyboard), Ok(()));
    assert_eq!(enable(&mut second, &mut registry, &mut os, HidType::Keyboard), Ok(()));
    second.clear_callbacks(&mut registry, HidType::Keyboard);
    assert_eq!(registry.for_each_live(HidType::Keyboard, 0, 0, 0), 1);
    assert_eq!(hits(&first_count), 1);
    assert_eq!(hits(&second_count), 0);
}

#[test]
fn five_events_then_disable() {
    let mut monitor = HidMonitor::default();
    let mut registry = Registry::new();
    let mut os = Os::new(true);
    let (callback, count) = counter();
    monitor.add_callback(&mut registry, HidType::Mouse, callback);
    assert_eq!(enable(&mut monitor, &mut registry, &mut os, HidType::Mouse), Ok(()));
    for _ in 0..5 {
        registry.for_each_live(HidType::Mouse, 0, 0x200, 0);
    }
    assert_eq!(hits(&count), 5);
    assert_eq!(disable(&mut monitor, &mut registry, &mut os, HidType::Mouse), Ok(()));
    registry.for_each_live(HidType::Mouse, 0, 0x200, 0);
    assert_eq!(hits(&count), 5);
}

#[test]
fn a_second_install_is_refused_and_the_first_monitor_is_unaffected() {
    let mut registry = Registry::new();
    let mut os = Os::new(true);
    let mut first = HidMonitor::default();
    let mut second = HidMonitor::default();
    let (first_callback, first_count) = counter();
    let (second_callback, second_count) = counter();
    first.add_callback(&mut registry, HidType::Mouse, first_callback);
    second.add_callback(&mut registry, HidType::Mouse, second_callback);

    assert_eq!(enable(&mut first, &mut registry, &mut os, HidType::Mouse), Ok(()));
    assert_eq!(
        enable(&mut second, &mut registry, &mut os, HidType::Mouse),
        Err(Error::Windows(ALREADY_INSTALLED))
    );

    assert_eq!(first.enable(HidType::Mouse), HookRequest::Nothing);
    assert_eq!(second.enable(HidType::Mouse), HookRequest::Install(HidType::Mouse));
    assert_eq!(registry.len(HidType::Mouse), 1);
    assert_eq!(registry.for_each_live(HidType::Mouse, 0, 0, 0), 1);
    assert_eq!(hits(&first_count), 1);
    assert_eq!(hits(&second_count), 0);
    assert_eq!(os.mouse.len(), 1);
}

#[test]
fn a_refused_install_can_be_tried_again() {
    let mut registry = Registry::new();
    let mut os = Os::new(true);
    let mut first = HidMonitor::default();
    let mut second = HidMonitor::default();
    let (callback, count) = counter();
    second.add_callback(&mut registry, HidType::Keyboard, callback);
    assert_eq!(enable(&mut first, &mut registry, &mut os, HidType::Keyboard), Ok(()));
    assert!(enable(&mut second, &mut registry, &mut os, HidType::Keyboard).is_err());
    assert_eq!(disable(&mut first, &mut registry, &mut os, HidType::Keyboard), Ok(()));
    assert_eq!(enable(&mut second, &mut registry, &mut os, HidType::Keyboard), Ok(()));
    assert_eq!(registry.for_each_live(HidType::Keyboard, 0, 0, 0), 1);
    assert_eq!(hits(&count), 1);
}

#[test]
fn a_windows_failure_is_handed_on_as_it_came() {
    let mut monitor = HidMonitor::default();
    let mut registry = Registry::new();
    let (callback, _) = counter();
    monitor.add_callback(&mut registry, HidType::Mouse, callback);
    let outcome = monitor.finish_enable(&mut registry, HidType::Mouse, Err(Error::Windows(-5)));
    assert_eq!(outcome, Err(Error::Windows(-5)));
    assert_eq!(registry.len(HidType::Mouse), 0);
    assert_eq!(monitor.enable(HidType::Mouse), HookRequest::Install(HidType::Mouse));
}

#[test]
fn a_unix_failure_is_handed_on_as_it_came() {
    let mut monitor = HidMonitor::default();
    let mut registry = Registry::new();
    let outcome =
        monitor.finish_enable(&mut registry, HidType::Keyboard, Err(Error::Unix(Errno(13))));
    assert_eq!(outcome, Err(Error::Unix(Errno(13))));
    assert_ne!(outcome, Err(Error::Unix(Errno(14))));
    assert_eq!(monitor.enable(HidType::Keyboard), HookRequest::Install(HidType::Keyboard));
}

#[test]
fn a_failed_uninstall_still_leaves_the_monitor_disabled() {
    let mut monitor = HidMonitor::default();
    let mut registry = Registry::new();
    let mut os = Os::new(true);
    let (callback, count) = counter();
    monitor.add_callback(&mut registry, HidType::Mouse, callback);
    assert_eq!(enable(&mut monitor, &mut registry, &mut os, HidType::Mouse), Ok(()));
    os.fail_uninstall = Some(Error::Windows(-7));
    assert_eq!(
        disable(&mut monitor, &mut registry, &mut os, HidType::Mouse),
        Err(Error::Windows(-7))
    );
    assert_eq!(registry.len(HidType::Mouse), 0);
    assert_eq!(registry.for_each_live(HidType::Mouse, 0, 0, 0), 0);
    assert_eq!(hits(&count), 0);
    assert_eq!(monitor.disable(&mut registry, HidType::Mouse), HookRequest::Nothing);
    assert_eq!(monitor.enable(HidType::Mouse), HookRequest::Install(HidType::Mouse));
}

#[test]
fn shutdown_disables_both_kinds() {
    let mut monitor = HidMonitor::default();
    let mut registry = Registry::new();
    let (keyboard, keyboard_count) = counter();
    let (mouse, mouse_count) = counter();
    let keyboard_token = HookToken::new(11).unwrap();
    let mouse_token = HookToken::new(12).unwrap();
    monitor.add_callback(&mut registry, HidType::Keyboard, keyboard);
    monitor.add_callback(&mut registry, HidType::Mouse, mouse);
    assert_eq!(monitor.finish_enable(&mut registry, HidType::Keyboard, Ok(keyboard_token)), Ok(()));
    assert_eq!(monitor.finish_enable(&mut registry, HidType::Mouse, Ok(mouse_token)), Ok(()));
    assert_eq!(
        monitor.shutdown(&mut registry),
        (HookRequest::Uninstall(keyboard_token), HookRequest::Uninstall(mouse_token))
    );
    assert_eq!(registry.len(HidType::Keyboard), 0);
    assert_eq!(registry.len(HidType::Mouse), 0);
    assert_eq!(registry.for_each_live(HidType::Keyboard, 0, 0, 0), 0);
    assert_eq!(registry.for_each_live(HidType::Mouse, 0, 0, 0), 0);
    assert_eq!(hits(&keyboard_count), 0);
    assert_eq!(hits(&mouse_count), 0);
    assert_eq!(monitor.shutdown(&mut registry), (HookRequest::Nothing, HookRequest::Nothing));
}

#[test]
fn shutdown_of_a_half_enabled_monitor_asks_for_one_removal() {
    let mut monitor = HidMonitor::default();
    let mut registry = Registry::new();
    let token = HookToken::new(3).unwrap();
    assert_eq!(monitor.finish_enable(&mut registry, HidType::Mouse, Ok(token)), Ok(()));
    assert_eq!(
        monitor.shutdown(&mut registry),
        (HookRequest::Nothing, HookRequest::Uninstall(token))
    );
}

#[test]
fn an_error_clones_to_an_equal_error() {
    let windows = Error::Windows(-2147024891);
    let unix = Error::Unix(Errno(2));
    assert_eq!(windows.clone(), windows);
    assert_eq!(unix.clone(), unix);
    assert_ne!(windows, unix);
}
