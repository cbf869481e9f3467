use hexahedron::extensions::{AsSliceOfOne, AsSliceOfOneMut};
use hexahedron::invoke::shared_type::ResolveMaybeOptional;
use hexahedron::shared_state::{ArgInject, ArgInjector};
use hexahedron::change::{Change, ReplaceCompare};
use hexahedron::color::{byte_from_hex, byte_hex, hex_char_value, Rgb, Rgba};
use hexahedron::color_lookup::{compare_name, find_color, NameOrder};
use hexahedron::color_table::Color;
use hexahedron::extensions::{BoolExtension, Replace, ToSome};
use hexahedron::invoke::callback::{Callback, Clear};
use hexahedron::invoke::every::{every, EveryTimeAnchor};
use hexahedron::invoke::optional::Optional;
use hexahedron::invoke::scheduler::Scheduler;
use hexahedron::invoke::task_context::TaskContext;
use hexahedron::invoke::task_response::{reschedule_time, TaskResponse};
use hexahedron::invoke::time as itime;
use hexahedron::invoke::time_key::TimeKey;
use hexahedron::invoke::trigger::{MemoryOrder, SharedBool, Trigger};
use hexahedron::polarity::{GetPolarity, Polarity};
use hexahedron::shared_state::{Occupation, State};
use hexahedron::text::to_ascii_lower;
use hexahedron::time::{Duration, Instant, Timer};

fn at(n: u128) -> Instant {
    Instant::from_nanos(n)
}

#[test]
fn durations_convert_units() {
    assert_eq!(Duration::from_secs(2).as_nanos(), 2_000_000_000);
    assert_eq!(Duration::from_millis(3).as_nanos(), 3_000_000);
    assert_eq!(Duration::from_micros(4).as_nanos(), 4_000);
    assert_eq!(Duration::new(1_500_000_000).as_secs(), 1);
    assert_eq!(Duration::new(1_500_000_000).subsec_nanos(), 500_000_000);
    assert_eq!(itime::mins(2).as_nanos(), 120_000_000_000);
    assert_eq!(itime::hours(1).as_nanos(), 3_600_000_000_000);
    assert_eq!(itime::days(1).as_nanos(), 86_400_000_000_000);
    assert_eq!(itime::after_millis_from(at(5), 1).as_nanos(), 1_000_005);
    assert_eq!(Duration::from_nanos(5).saturating_sub(Duration::from_nanos(9)).as_nanos(), 0);
    assert_eq!(
        Duration::from_nanos(5).checked_add(Duration::from_nanos(9)).map(|d| d.as_nanos()),
        Some(14)
    );
    assert_eq!(Duration::zero().as_nanos(), 0);
}

#[test]
fn instants_order_and_measure() {
    assert!(at(3).is_before(&at(4)));
    assert!(!at(4).is_before(&at(4)));
    assert_eq!(at(10).duration_since(at(4)).as_nanos(), 6);
    assert_eq!(at(4).duration_since(at(10)).as_nanos(), 0);
    assert_eq!(at(10).add(Duration::from_nanos(5)).as_nanos(), 15);
    let mut timer = Timer::start_at(at(100));
    assert_eq!(timer.elapsed_at(at(150)).as_nanos(), 50);
    assert_eq!(timer.time_at(at(160)).as_nanos(), 60);
    assert_eq!(timer.start_time().as_nanos(), 160);
    timer.reset_at(at(200));
    assert_eq!(timer.start_time().as_nanos(), 200);
}

#[test]
fn scheduler_runs_in_time_order() {
    let mut s = Scheduler::<char>::new();
    s.at(at(30), 'c');
    s.at(at(10), 'a');
    s.after_from(at(0), Duration::from_nanos(20), 'b');
    assert_eq!(s.len(), 3);
    assert_eq!(s.next_task_time().map(|t| t.as_nanos()), Some(10));
    assert_eq!(s.duration_until_next_task_from(at(4)).map(|d| d.as_nanos()), Some(6));
    let first = s.pop_due(at(25)).unwrap();
    assert_eq!((first.time.as_nanos(), first.callback), (10, 'a'));
    let second = s.pop_due(at(25)).unwrap();
    assert_eq!((second.time.as_nanos(), second.callback), (20, 'b'));
    assert!(s.pop_due(at(25)).is_none());
    assert_eq!(s.len(), 1);
    s.clear();
    assert!(s.is_empty());
    assert!(s.pop_due(at(1000)).is_none());
}

#[test]
fn scheduler_keeps_insertion_order_for_equal_times() {
    let mut s = Scheduler::<u8>::new();
    s.at(at(5), 1);
    s.at(at(5), 2);
    s.at(at(5), 3);
    let a = s.pop_due(at(5)).unwrap().callback;
    let b = s.pop_due(at(5)).unwrap().callback;
    let c = s.pop_due(at(5)).unwrap().callback;
    assert_eq!((a, b, c), (1, 2, 3));
}

#[test]
fn rescheduling_follows_the_response() {
    let d = Duration::from_nanos(7);
    assert_eq!(reschedule_time(TaskResponse::Finish, at(1), at(2), at(3)), None);
    assert_eq!(reschedule_time(TaskResponse::Continue, at(1), at(2), at(3)), None);
    assert_eq!(reschedule_time(TaskResponse::Immediate, at(1), at(2), at(3)).map(|t| t.as_nanos()), Some(3));
    assert_eq!(reschedule_time(TaskResponse::AfterScheduled(d), at(1), at(2), at(3)).map(|t| t.as_nanos()), Some(8));
    assert_eq!(reschedule_time(TaskResponse::AfterTaskBegan(d), at(1), at(2), at(3)).map(|t| t.as_nanos()), Some(9));
    assert_eq!(reschedule_time(TaskResponse::AfterTaskEnds(d), at(1), at(2), at(3)).map(|t| t.as_nanos()), Some(10));
    assert_eq!(reschedule_time(TaskResponse::At(at(42)), at(1), at(2), at(3)).map(|t| t.as_nanos()), Some(42));
    let mut s = Scheduler::<u8>::new();
    assert!(s.reschedule(at(1), 9, TaskResponse::AfterScheduled(d), at(2), at(3)));
    assert!(!s.reschedule(at(1), 9, TaskResponse::Finish, at(2), at(3)));
    assert_eq!(s.len(), 1);
    assert_eq!(s.next_task_time().map(|t| t.as_nanos()), Some(8));
}

#[test]
fn task_responses() {
    assert_eq!(TaskResponse::default(), TaskResponse::Continue);
    assert!(TaskResponse::Finish.finished());
    assert!(!TaskResponse::Immediate.finished());
    assert_eq!(TaskResponse::Finish.unfinished_or(TaskResponse::Immediate), TaskResponse::Immediate);
    assert_eq!(TaskResponse::Continue.unfinished_or(TaskResponse::Immediate), TaskResponse::Continue);
    assert_eq!(TaskResponse::Finish.unfinished_or_else(|| TaskResponse::Continue), TaskResponse::Continue);
    assert_eq!(TaskResponse::from(()), TaskResponse::Finish);
    assert_eq!(TaskResponse::from(Duration::from_nanos(3)), TaskResponse::AfterTaskEnds(Duration::from_nanos(3)));
    assert_eq!(TaskResponse::from(at(3)), TaskResponse::At(at(3)));
    assert_eq!(TaskResponse::from(None::<TaskResponse>), TaskResponse::Finish);
    assert_eq!(TaskResponse::from(Some(TaskResponse::Immediate)), TaskResponse::Immediate);
}

#[test]
fn every_repeats_until_finished() {
    let e = every(Duration::from_nanos(4), EveryTimeAnchor::Schedule, ());
    assert_eq!(e.respond(TaskResponse::Continue), TaskResponse::AfterScheduled(Duration::from_nanos(4)));
    assert_eq!(e.respond(TaskResponse::Finish), TaskResponse::Finish);
    let after = every(Duration::from_nanos(4), EveryTimeAnchor::After, ());
    assert_eq!(after.respond(TaskResponse::Immediate), TaskResponse::AfterTaskEnds(Duration::from_nanos(4)));
    let before = every(Duration::from_nanos(4), EveryTimeAnchor::Before, ());
    assert_eq!(before.respond(TaskResponse::Immediate), TaskResponse::AfterTaskBegan(Duration::from_nanos(4)));
}

#[test]
fn clear_empties_the_scheduler() {
    let mut s = Scheduler::<u8>::new();
    s.at(at(1), 1);
    let mut shared = 0u32;
    let ctx = TaskContext::from_parts(at(0), &mut shared, &mut s);
    let mut clear = Clear;
    let r = Callback::<u8, u32>::invoke(&mut clear, ctx);
    assert_eq!(r, TaskResponse::Finish);
    assert!(s.is_empty());
}

#[test]
fn time_keys() {
    let key = TimeKey::new(at(10), 'x');
    assert!(key.is_ready_at(at(10)));
    assert!(!key.is_ready_at(at(9)));
}

#[test]
fn optional_round_trip() {
    assert_eq!(Optional::from_option(Some(3)), Optional::Just(3));
    assert_eq!(Optional::<u8>::from_option(None), Optional::Nothing);
    assert_eq!(Optional::Just(4).to_option(), Some(4));
    assert_eq!(Optional::from(Some(5u8)).to_option(), Some(5u8));
}

#[test]
fn triggers_and_shared_bools() {
    let t = Trigger::new(false);
    assert!(!t.evaluate());
    t.activate();
    assert!(t.evaluate());
    assert!(t.swap(false));
    t.deactivate();
    assert!(!t.evaluate());
    let inner = t.clone_inner();
    inner.store(true, std::sync::atomic::Ordering::SeqCst);
    assert!(t.evaluate());
    let b = SharedBool::new(true, MemoryOrder::SeqCst);
    assert!(b.load());
    b.store(false);
    assert!(!b.swap(true));
    assert!(b.load());
}

#[test]
fn polarity_of_integers() {
    assert_eq!((-3i32).polarity(), Polarity::Negative);
    assert_eq!(0i32.polarity(), Polarity::Positive);
    assert_eq!(Polarity::Positive.set_polarity(-5i64), 5);
    assert_eq!(Polarity::Negative.set_polarity(5i64), -5);
    assert_eq!(Polarity::Negative.set_polarity(-5i64), -5);
    assert_eq!(Polarity::Negative.polarize(7i8), -7);
    assert_eq!(Polarity::get(-1i16), Polarity::Negative);
}

#[test]
fn hex_digits() {
    assert_eq!(byte_hex(0xAB), [b'A', b'B']);
    assert_eq!(byte_hex(0x05), [b'0', b'5']);
    assert_eq!(hex_char_value(b'f'), Some(15));
    assert_eq!(hex_char_value(b'G'), None);
    assert_eq!(byte_from_hex(b"7f"), Some(0x7f));
    assert_eq!(byte_from_hex(b"7"), Some(7));
    assert_eq!(byte_from_hex(b"7g"), None);
    assert_eq!(byte_from_hex(b"123"), None);
}

#[test]
fn rgb_hex_round_trip() {
    let c = Rgb::new(0x12, 0xab, 0xff);
    assert_eq!(c.hex(), "12ABFF");
    assert_eq!(Rgb::from_hex("12abff"), Some(c));
    assert_eq!(Rgb::from_hex("12abf"), None);
    assert_eq!(Rgb::from_hex("12abfg"), None);
    assert_eq!(Rgb::gray(9).to_tuple(), (9, 9, 9));
    assert!(Rgb::gray(9).is_gray());
    assert_eq!(c.with_alpha(3).rgb(), c);
    assert_eq!(Rgba::alpha_gray(4, 5), Rgba::new(4, 4, 4, 5));
}

#[test]
fn rgba_hex_six_and_eight_digits() {
    assert_eq!(Rgba::from_hex("12abff"), Some(Rgba::new(0x12, 0xab, 0xff, 255)));
    assert_eq!(Rgba::from_hex("12abff80"), Some(Rgba::new(0x12, 0xab, 0xff, 0x80)));
    let c = Rgba::new(1, 0xfe, 0x3c, 0x07);
    assert_eq!(c.hex(), "01FE3C07");
    assert_eq!(Rgba::from_hex(&c.hex()), Some(c));
    assert_eq!(Rgba::from_hex("12abf"), None);
    assert_eq!(Rgba::from_hex("12abfg"), None);
    assert_eq!(Rgba::from_hex("12abff8"), None);
    assert_eq!(Rgba::from_hex("12abff8g"), None);
}

#[test]
fn named_colors() {
    assert_eq!(find_color("Alice Blue"), Some(Color::AliceBlue));
    assert_eq!(find_color("alice_blue"), Some(Color::AliceBlue));
    assert_eq!(find_color("not a color"), None);
    assert_eq!(Color::AliceBlue.hex(), "#F0F8FF");
    assert_eq!(Color::AliceBlue.rgb(), Rgb::new(0xF0, 0xF8, 0xFF));
    assert_eq!(Rgb::from_name("aqua"), Some(Rgb::new(0, 0xff, 0xff)));
    assert_eq!(Color::iter().len(), 140);
    assert_eq!(Color::from_byte(Color::Azure.to_byte()), Some(Color::Azure));
    assert_eq!(Color::from_byte(200), None);
    assert_eq!(compare_name("A b", "ab"), NameOrder::Equal);
    assert_eq!(compare_name("ab", "ac"), NameOrder::Less);
    assert_eq!(compare_name("b", "a"), NameOrder::Greater);
}

#[test]
fn ascii_lowering() {
    assert_eq!(to_ascii_lower('Q'), 'q');
    assert_eq!(to_ascii_lower('q'), 'q');
    assert_eq!(to_ascii_lower('1'), '1');
}

#[test]
fn change_detection() {
    let mut x = 3;
    assert_eq!(x.replace_compare(3), Change::Unchanged);
    assert_eq!(x.replace_compare(4), Change::Changed(3));
    assert_eq!(x, 4);
    assert_eq!(Change::cmp_new(&1, 2), Change::Changed(2));
    assert!(Change::Changed(1).changed());
    assert_eq!(Change::<u8>::Unchanged.some(), None);
    assert_eq!(Change::Changed(8).unwrap(), 8);
}

#[test]
fn small_extensions() {
    assert_eq!(5.some(), Some(5));
    let mut v = 1;
    assert_eq!(v.replace(2), 1);
    assert_eq!(v, 2);
    assert_eq!(true.select(1, 2), 1);
    assert_eq!(false.select(1, 2), 2);
    let mut flag = false;
    assert!(flag.mark());
    assert!(!flag.mark());
    assert!(flag.unmark());
    assert_eq!(flag.toggle(), true);
}

#[test]
fn state_parts() {
    let s = State::new(String::from("Jorgathon"), 30, Occupation::Writer);
    let _ = s;
}

struct Counter;

impl Callback<Counter, u32> for Counter {
    fn spec_invoked(
        &self,
        _time: Instant,
        _shared: u32,
        _scheduler: Scheduler<Counter>,
        _after: Counter,
        _response: TaskResponse,
        _shared_after: u32,
        _scheduler_after: Scheduler<Counter>,
    ) -> bool {
        true
    }

    fn invoke(&mut self, ctx: TaskContext<'_, Counter, u32>) -> TaskResponse {
        *ctx.shared += 1;
        if *ctx.shared < 3 {
            TaskResponse::AfterScheduled(Duration::from_nanos(10))
        } else {
            TaskResponse::Finish
        }
    }
}

#[test]
fn processing_runs_due_tasks_and_requeues_them() {
    let mut s = Scheduler::<Counter>::new();
    s.at(at(0), Counter);
    let mut runs = 0u32;
    assert!(s.process_due(at(100), &mut runs));
    assert_eq!(runs, 1);
    assert_eq!(s.next_task_time().map(|t| t.as_nanos()), Some(10));
    assert!(!s.process_due(at(5), &mut runs));
    assert_eq!(runs, 1);
    while s.process_due(at(100), &mut runs) {}
    assert_eq!(runs, 3);
    assert!(s.is_empty());
}

#[test]
fn process_next_runs_the_earliest_task() {
    let mut s = Scheduler::<Counter>::new();
    s.at(itime::after_secs(3600), Counter);
    let mut runs = 2u32;
    assert!(!s.process_next(&mut runs));
    assert_eq!(runs, 3);
    assert!(s.is_empty());
}

#[test]
fn clock_based_helpers() {
    let before = itime::now();
    let later = itime::after(Duration::from_secs(60));
    assert!(later.as_nanos() >= before.as_nanos() + 60_000_000_000);
    let mut s = Scheduler::<u8>::new();
    s.after_secs(3600, 1);
    s.now(2);
    assert_eq!(s.len(), 2);
    let d = s.duration_until_next_task().unwrap();
    assert!(d.as_nanos() <= 3_600_000_000_000);
    let timer = Timer::start();
    let (elapsed, value) = Timer::measure_time(|| 6 * 7);
    assert_eq!(value, 42);
    assert!(elapsed.as_nanos() < 60_000_000_000);
    assert!(timer.elapsed().as_nanos() < 60_000_000_000);
}

#[test]
fn slice_of_one_writes_back() {
    let mut x = 5u8;
    {
        let s = x.as_slice_of_one_mut();
        s[0] = 7;
    }
    assert_eq!(x, 7);
    assert_eq!(x.as_slice_of_one(), &[7]);
}

#[test]
fn maybe_optional_resolution() {
    let v: u8 = ResolveMaybeOptional::resolve(Some(3u8));
    assert_eq!(v, 3);
    let o: Option<u8> = ResolveMaybeOptional::resolve(None::<u8>);
    assert_eq!(o, None);
}

#[test]
fn arg_injection_passes_state_parts() {
    let state = State::new(String::from("Jorgathon Nafaniels"), 42, Occupation::Programmer);
    let mut inj = ArgInjector::new((0u32, String::new()), |count: &mut u32, log: &mut String, name: &String, age: &u8| {
        *count += 1;
        log.push_str(&format!("{name}:{age}"));
    });
    inj.exec(&state);
    inj.exec(&state);
    assert_eq!(inj.args.0, 2);
    assert_eq!(inj.args.1, "Jorgathon Nafaniels:42Jorgathon Nafaniels:42");
}

#[test]
fn colors_as_text_and_conversions() {
    assert_eq!(Rgb::new(1, 22, 255).to_string(), "Rgb(1, 22, 255)");
    assert_eq!(Rgba::new(0, 100, 9, 10).to_string(), "Rgba(0, 100, 9, 10)");
    assert_eq!(hexahedron::color::gray(7).to_string(), "Gray(7)");
    assert_eq!(Color::AliceBlue.to_string(), "Color::AliceBlue");
    let c: Rgb = [1u8, 2, 3].into();
    assert_eq!(c, Rgb::new(1, 2, 3));
    let t: (u8, u8, u8) = c.into();
    assert_eq!(t, (1, 2, 3));
    let a: [u8; 3] = c.into();
    assert_eq!(a, [1, 2, 3]);
    let with_alpha: Rgba = c.into();
    assert_eq!(with_alpha, Rgba::new(1, 2, 3, 255));
    let back: [u8; 4] = with_alpha.into();
    assert_eq!(back, [1, 2, 3, 255]);
    let g: hexahedron::color::Gray = 9u8.into();
    let level: u8 = g.into();
    assert_eq!(level, 9);
    let from_gray: Rgb = g.into();
    assert_eq!(from_gray, Rgb::new(9, 9, 9));
    let aqua: Rgb = Color::Aqua.into();
    assert_eq!(aqua, Rgb::new(0, 255, 255));
    assert!(aqua == Color::Aqua);
    assert!(Color::Aqua == aqua);
    assert!(Rgba::new(0, 255, 255, 255) == Color::Aqua);
    assert!(!(Rgba::new(0, 255, 255, 0) == Color::Aqua));
}

#[test]
fn time_keys_order_latest_first() {
    let early = TimeKey::new(at(1), 'a');
    let late = TimeKey::new(at(2), 'b');
    assert!(early > late);
    assert!(late < early);
    assert!(early == TimeKey::new(at(1), 'z'));
    assert!(early == at(1));
    assert!(early > at(5));
    assert!(TimeKey::new(at(0), ()).is_ready());
}

#[test]
fn conditional_runs_only_when_triggered() {
    use_conditional();
}

fn use_conditional() {
    let trigger = Trigger::new(false);
    let mut cond = hexahedron::invoke::conditional::conditional::<Clear, Trigger, ()>(trigger.clone(), Clear);
    let mut s = Scheduler::<u8>::new();
    s.at(at(1), 1);
    let mut shared = 0u32;
    let r = Callback::<u8, u32>::invoke(&mut cond, TaskContext::from_parts(at(0), &mut shared, &mut s));
    assert_eq!(r, TaskResponse::Continue);
    assert_eq!(s.len(), 1);
    trigger.activate();
    let r = Callback::<u8, u32>::invoke(&mut cond, TaskContext::from_parts(at(0), &mut shared, &mut s));
    assert_eq!(r, TaskResponse::Finish);
    assert!(s.is_empty());
}

#[test]
fn process_next_puts_the_task_back_when_asked() {
    let mut s = Scheduler::<Counter>::new();
    s.at(at(0), Counter);
    s.at(at(50), Counter);
    let mut runs = 0u32;
    assert!(s.process_next(&mut runs));
    assert_eq!(runs, 1);
    assert_eq!(s.len(), 2);
    assert_eq!(s.next_task_time().map(|t| t.as_nanos()), Some(10));
    runs = 5;
    assert!(!s.process_next(&mut runs));
    assert_eq!(s.len(), 1);
    assert_eq!(s.next_task_time().map(|t| t.as_nanos()), Some(50));
}

#[test]
fn clock_readers_compare_with_the_clock() {
    let mut timer = Timer::start_at(itime::now());
    let lap = timer.time();
    assert!(lap.as_nanos() < 60_000_000_000);
    assert!(timer.elapsed().as_nanos() < 60_000_000_000);
    assert!(TimeKey::new(at(0), ()).is_ready());
    assert!(!TimeKey::new(itime::after_secs(3600), ()).is_ready());
}

#[test]
fn setting_a_polarity_twice_changes_nothing_more() {
    for v in [-7i8, -1, 0, 1, 7, i8::MAX] {
        for p in [Polarity::Negative, Polarity::Positive] {
            let once = p.set_polarity(v);
            assert_eq!(p.set_polarity(once), once);
        }
    }
    assert_eq!(Polarity::Negative.set_polarity(5i8), -5);
    assert_eq!(Polarity::Positive.set_polarity(-5i8), 5);
    assert_eq!(Polarity::Negative.set_polarity(0i8), 0);
}

#[test]
fn bounded_processing_runs_what_is_due() {
    let mut s = Scheduler::<Counter>::new();
    s.at(at(0), Counter);
    let mut runs = 0u32;
    assert_eq!(s.process_until_bounded(at(100), 1, &mut runs), 1);
    assert_eq!(runs, 1);
    assert_eq!(s.process_until_bounded(at(5), 10, &mut runs), 0);
    assert_eq!(s.process_until_bounded(at(100), 10, &mut runs), 2);
    assert_eq!(runs, 3);
    assert!(s.is_empty());
    s.at(at(0), Counter);
    runs = 2;
    assert_eq!(s.process_current_bounded(10, &mut runs), 1);
    assert!(s.is_empty());
}
