use clickcapture::auto_click::{
    auto_click_step, limit_warning, next_sleep_ms, progress_label, AutoClickJob, AutoClicker,
    ClickStep, MAX_CAPTURE_COUNT,
};
use clickcapture::geometry::Point;

#[test]
fn new_clicker_defaults() {
    let c = AutoClicker::new();
    assert!(!c.is_enabled());
    assert!(!c.is_running());
    assert_eq!(c.interval_ms, 1000);
    assert_eq!(c.get_progress_count(), 0);
    assert_eq!(c.get_max_count(), 0);
}

#[test]
fn start_twice_is_refused_and_stop_ends_the_run() {
    let mut c = AutoClicker::new();
    c.set_interval(3000);
    c.set_max_count(5);
    c.set_progress_count(4);
    let p = Point { x: 10, y: 20 };
    assert_eq!(c.start(p), Ok(AutoClickJob { position: p, interval_ms: 3000, max_count: 5 }));
    assert!(c.is_running());
    assert_eq!(c.get_progress_count(), 0);
    assert_eq!(c.start(p), Err("連続クリックは既に開始されています".to_string()));
    assert!(c.stop());
    assert!(!c.is_running());
    assert!(!c.stop());
}

#[test]
fn loop_steps() {
    assert_eq!(auto_click_step(0, 3, false), ClickStep::Click { progress: 1 });
    assert_eq!(auto_click_step(2, 3, false), ClickStep::Click { progress: 3 });
    assert_eq!(auto_click_step(3, 3, false), ClickStep::Finish);
    assert_eq!(auto_click_step(0, 3, true), ClickStep::Finish);
    assert_eq!(auto_click_step(999, 5000, false), ClickStep::LimitReached);
    assert_eq!(auto_click_step(999, 999, false), ClickStep::LimitReached);
    assert_eq!(auto_click_step(0, 0, false), ClickStep::Finish);
}

#[test]
fn a_run_clicks_the_smaller_of_count_and_cap() {
    for max in [0u32, 1, 7, 999, 1000, 5000] {
        let mut progress = 0u32;
        let mut clicks = 0u32;
        loop {
            match auto_click_step(progress, max, false) {
                ClickStep::Click { progress: p } => {
                    progress = p;
                    clicks += 1;
                }
                _ => break,
            }
        }
        assert_eq!(clicks, max.min(MAX_CAPTURE_COUNT));
    }
}

#[test]
fn labels_and_pauses() {
    assert_eq!(progress_label(3, 10), "自動クリック中 ...(3/10)");
    assert_eq!(
        limit_warning(),
        "⚠️ 連続クリックが最大クリック数(999)に達しました。連続クリックを停止します。"
    );
    assert_eq!(next_sleep_ms(1000), 100);
    assert_eq!(next_sleep_ms(40), 40);
    assert_eq!(next_sleep_ms(0), 0);
}
