use systick_delay::delay::{Action, Delay, Outcome};

/// A stand-in for the SysTick registers and the debug console: the counter
/// wraps after `clear_polls` polls that find the flag clear.
struct SimTimer {
    reload: u32,
    current: u32,
    enabled: bool,
    clear_polls: usize,
    console: String,
    log: Vec<String>,
}

impl SimTimer {
    fn new(clear_polls: usize) -> SimTimer {
        SimTimer {
            reload: 0,
            current: 77,
            enabled: false,
            clear_polls,
            console: String::new(),
            log: Vec::new(),
        }
    }

    fn perform(&mut self, action: &Action) -> Outcome {
        match action {
            Action::SetReload(v) => {
                self.reload = *v;
                self.log.push(format!("reload {}", v));
                Outcome::Performed
            }
            Action::ClearCurrent => {
                self.current = 0;
                self.log.push("clear".to_string());
                Outcome::Performed
            }
            Action::EnableCounter => {
                self.enabled = true;
                self.current = self.reload;
                self.log.push("enable".to_string());
                Outcome::Performed
            }
            Action::ReadCurrent => {
                self.log.push(format!("read {}", self.current));
                Outcome::Current(self.current)
            }
            Action::Write(text) => {
                self.console.push_str(text);
                self.log.push("write".to_string());
                Outcome::Performed
            }
            Action::PollWrapped => {
                assert!(self.enabled, "polled a stopped counter");
                let wrapped = self.clear_polls == 0;
                if wrapped {
                    self.current = self.reload;
                } else {
                    self.clear_polls -= 1;
                    self.current = self.current.saturating_sub(1);
                }
                self.log.push(format!("poll {}", wrapped));
                Outcome::Wrapped(wrapped)
            }
            Action::DisableCounter => {
                self.enabled = false;
                self.log.push("disable".to_string());
                Outcome::Performed
            }
            Action::Finished => panic!("a finished delay performs nothing"),
        }
    }
}

fn run(ms: u32, clear_polls: usize) -> SimTimer {
    let mut timer = SimTimer::new(clear_polls);
    let mut delay = Delay::new(ms).expect("duration fits the reload register");
    let mut steps = 0usize;
    loop {
        let action = delay.action();
        if action == Action::Finished {
            break;
        }
        let outcome = timer.perform(&action);
        delay.advance(outcome);
        steps += 1;
        assert!(steps < 10_000, "delay did not finish");
    }
    timer
}

#[test]
fn delay_programs_reload_with_ticks_for_long_wait() {
    let timer = run(1000, 3);
    assert_eq!(timer.log[0], "reload 12000000");
    assert_eq!(timer.reload, 12_000_000);
}

#[test]
fn delay_performs_steps_in_order() {
    let timer = run(100, 2);
    assert_eq!(
        timer.log,
        vec![
            "reload 1200000",
            "clear",
            "enable",
            "read 1200000",
            "write",
            "poll false",
            "poll false",
            "poll true",
            "read 1200000",
            "write",
            "disable",
        ]
    );
}

#[test]
fn delay_writes_both_diagnostic_lines() {
    let timer = run(100, 4);
    assert_eq!(
        timer.console,
        "waiting for 100 ms (SYST_CVR=1200000) ...\n  ... done (SYST_CVR=1200000)\n\n"
    );
}

#[test]
fn delay_leaves_counter_disabled() {
    for (ms, polls) in [(1000u32, 0usize), (100, 5), (0, 0), (1398, 1)] {
        let timer = run(ms, polls);
        assert!(!timer.enabled);
        assert_eq!(timer.log.last().map(String::as_str), Some("disable"));
    }
}

#[test]
fn delay_of_zero_ms_completes() {
    let timer = run(0, 0);
    assert_eq!(timer.log[0], "reload 0");
    assert_eq!(timer.log.len(), 9);
    assert!(timer.console.starts_with("waiting for 0 ms (SYST_CVR=0) ...\n"));
}

#[test]
fn delay_announces_before_polling_and_reports_after_wrap() {
    let timer = run(1000, 6);
    let first_poll = timer.log.iter().position(|e| e.starts_with("poll")).unwrap();
    let wrap = timer.log.iter().position(|e| e == "poll true").unwrap();
    let writes: Vec<usize> = timer
        .log
        .iter()
        .enumerate()
        .filter(|(_, e)| *e == "write")
        .map(|(i, _)| i)
        .collect();
    assert_eq!(writes.len(), 2);
    assert!(writes[0] < first_poll);
    assert!(writes[1] > wrap);
    assert_eq!(timer.log.iter().filter(|e| *e == "poll true").count(), 1);
}

#[test]
fn delay_action_is_stable_until_advanced() {
    let delay = Delay::new(100).unwrap();
    assert_eq!(delay.action(), Action::SetReload(1_200_000));
    assert_eq!(delay.action(), Action::SetReload(1_200_000));
}

#[test]
fn delay_keeps_polling_while_flag_is_clear() {
    let mut delay = Delay::new(1).unwrap();
    for _ in 0..3 {
        delay.advance(Outcome::Performed);
    }
    assert_eq!(delay.action(), Action::ReadCurrent);
    delay.advance(Outcome::Current(5));
    assert_eq!(
        delay.action(),
        Action::Write("waiting for 1 ms (SYST_CVR=5) ...\n".to_string())
    );
    delay.advance(Outcome::Performed);
    for _ in 0..100 {
        assert_eq!(delay.action(), Action::PollWrapped);
        delay.advance(Outcome::Wrapped(false));
    }
    delay.advance(Outcome::Wrapped(true));
    assert_eq!(delay.action(), Action::ReadCurrent);
}

#[test]
fn delay_new_rejects_duration_past_register() {
    assert!(Delay::new(1399).is_none());
    assert!(Delay::new(1398).is_some());
}
