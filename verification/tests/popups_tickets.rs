use lingchat::popups::close_decision;
use lingchat::popups::{cmd_literal, cmd_script, PopupTickets};

fn request() -> String {
    "RUNTIME".to_string()
}

#[test]
fn tickets_are_single_use_and_canceled_with_the_run() {
    let mut tickets: PopupTickets<String> = PopupTickets::new();
    tickets.begin_run();
    let first = tickets.queue_pending(request()).unwrap();
    assert_eq!(tickets.take_pending(first).unwrap().request, "RUNTIME");
    assert!(tickets.take_pending(first).is_err());

    let canceled = tickets.queue_pending(request()).unwrap();
    tickets.close_all();
    assert!(tickets.take_pending(canceled).is_err());
    assert!(tickets.queue_pending(request()).is_err());
}

#[test]
fn requests_need_an_active_run() {
    let mut tickets: PopupTickets<String> = PopupTickets::new();
    assert_eq!(
        tickets.queue_pending(request()).unwrap_err(),
        "当前没有可接收系统窗口事件的剧本运行"
    );
}

#[test]
fn pending_requests_are_capped() {
    let mut tickets: PopupTickets<u32> = PopupTickets::new();
    tickets.begin_run();
    for i in 0..64 {
        assert!(tickets.queue_pending(i).is_ok());
    }
    assert_eq!(tickets.queue_pending(64).unwrap_err(), "系统窗口待处理票据已达到安全上限");
}

#[test]
fn discarded_and_old_run_tickets_are_refused() {
    let mut tickets: PopupTickets<u32> = PopupTickets::new();
    tickets.begin_run();
    let a = tickets.queue_pending(1).unwrap();
    let b = tickets.queue_pending(2).unwrap();
    assert_ne!(a, b);
    tickets.discard_pending(a);
    assert_eq!(tickets.show_pending(a).unwrap_err(), "系统窗口票据不存在、已消费或已取消");
    assert_eq!(tickets.show_pending(b).unwrap().request, 2);
    let c = tickets.queue_pending(3).unwrap();
    tickets.begin_run();
    assert!(tickets.show_pending(c).is_err());
}

#[test]
fn blood_cmd_uses_red_background_without_powershell() {
    let command = cmd_script("RUNTIME", "lingchat-console-test.txt", true);
    assert!(command.contains("color 4F"));
    assert!(command.contains("%~dp0lingchat-console-test.txt"));
    assert!(!command.to_ascii_lowercase().contains("powershell"));
    assert!(!command.to_ascii_lowercase().contains("pwsh"));
    assert!(!command.contains("safe story text"));
}

#[test]
fn normal_cmd_uses_blue_background() {
    let command = cmd_script("RUNTIME", "lingchat-console-test.txt", false);
    assert!(command.contains("color 1F"));
}

#[test]
fn cmd_titles_lose_shell_syntax() {
    assert_eq!(cmd_literal("a&b|c<d>e%f^g\"h`i!j(k)l\n"), "abcdefghijkl");
    let command = cmd_script("x & del", "t.txt", false);
    assert!(command.starts_with("@echo off\r\nchcp 65001 >nul\r\ntitle x  del\r\ncolor 1F\r\n"));
    assert!(command.ends_with("goto lingchat_wait"));
}

#[test]
fn closing_a_window_process_keeps_a_document_in_use() {
    let d = close_decision(true, true, true, true);
    assert!(d.kill_child && !d.keep_files);
    let d = close_decision(false, true, true, true);
    assert!(!d.kill_child && d.keep_files);
    let d = close_decision(false, false, true, true);
    assert!(d.kill_child && !d.keep_files);
    let d = close_decision(false, false, false, true);
    assert!(!d.kill_child && d.keep_files);
    let d = close_decision(false, false, false, false);
    assert!(!d.kill_child && !d.keep_files);
}

#[test]
fn only_open_tickets_are_shown_across_a_history() {
    let mut t: PopupTickets<String> = PopupTickets::new();
    t.begin_run();
    let a = t.queue_pending(request()).unwrap();
    let b = t.queue_pending("SECOND".to_string()).unwrap();
    t.discard_pending(a);
    assert!(t.show_pending(a).is_err());
    assert_eq!(t.show_pending(b).unwrap().request, "SECOND");
    assert!(t.show_pending(b).is_err());
    let c = t.queue_pending(request()).unwrap();
    t.begin_run();
    assert!(t.show_pending(c).is_err());
}
