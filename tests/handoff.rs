use led_animator::animation::Animation;
use led_animator::color::{Frame, Rgb, Rgba};
use led_animator::mailbox::Mailbox;
use led_animator::output::sink_color;
use led_animator::renderer::{Phase, Renderer};

const PURPLE: Rgba = Rgba { r: 138, g: 43, b: 226, a: 255 };

#[test]
fn mailbox_latest_wins() {
    let mut m = Mailbox::new();
    assert!(!m.is_pending());
    assert_eq!(m.try_take(), None);
    m.publish(Animation::SolidColor(PURPLE));
    m.publish(Animation::Off);
    assert!(m.is_pending());
    assert_eq!(m.try_take(), Some(Animation::Off));
    assert_eq!(m.try_take(), None);
    assert!(!m.is_pending());
}

#[test]
fn renderer_starts_dark() {
    let mut m = Mailbox::new();
    let mut r = Renderer::new();
    assert_eq!(r.phase(), Phase::Idle);
    let f = r.tick(&mut m, 42);
    assert_eq!(f, Frame::dark());
    assert_eq!(r.last_frame(), Frame::dark());
}

#[test]
fn late_tick_keeps_phase() {
    let a = Animation::FadeOnOff(PURPLE, 2_000);
    let mut m = Mailbox::new();
    let mut r = Renderer::new();
    m.publish(a);
    assert_eq!(r.tick(&mut m, 1_000).brightness, 0);
    // next tick arrives 5.5 s later: anchor moves by two whole periods
    let f = r.tick(&mut m, 6_500);
    assert_eq!(r.phase(), Phase::Playing { anim: a, anchor: 5_000 });
    assert_eq!(f, led_animator::animation::evaluate(&a, 5_500 % 2_000).unwrap());
    assert_eq!(f.brightness, 127);
    assert_eq!(r.tick(&mut m, 7_000).brightness, 0);
    assert_eq!(r.phase(), Phase::Playing { anim: a, anchor: 7_000 });
}

#[test]
fn solid_color_keeps_anchor() {
    let a = Animation::SolidColor(PURPLE);
    let mut m = Mailbox::new();
    let mut r = Renderer::new();
    m.publish(a);
    r.tick(&mut m, 10);
    let f = r.tick(&mut m, 1_000_000);
    assert_eq!(r.phase(), Phase::Playing { anim: a, anchor: 10 });
    assert_eq!(f, Frame { color: Rgb { r: 138, g: 43, b: 226 }, brightness: 255 });
}

#[test]
fn new_selection_restarts_phase() {
    let a = Animation::FadeOnOff(PURPLE, 2_000);
    let mut m = Mailbox::new();
    let mut r = Renderer::new();
    m.publish(a);
    r.tick(&mut m, 0);
    assert_eq!(r.tick(&mut m, 1_000).brightness, 255);
    m.publish(a);
    assert_eq!(r.tick(&mut m, 1_033).brightness, 0);
    assert_eq!(r.phase(), Phase::Playing { anim: a, anchor: 1_033 });
}

#[test]
fn invalid_selection_is_refused() {
    let mut m = Mailbox::new();
    let mut r = Renderer::new();
    m.publish(Animation::SolidColor(PURPLE));
    let before = r.tick(&mut m, 0);
    m.publish(Animation::FadeOnOff(PURPLE, 0));
    let after = r.tick(&mut m, 33);
    assert_eq!(before, after);
    assert!(!m.is_pending());
    assert_eq!(r.phase(), Phase::Playing { anim: Animation::SolidColor(PURPLE), anchor: 0 });
    m.publish(Animation::Blink(PURPLE, 0, 0));
    assert_eq!(r.tick(&mut m, 66), before);
}

#[test]
fn off_after_color_is_dark() {
    let mut m = Mailbox::new();
    let mut r = Renderer::new();
    m.publish(Animation::SolidColor(PURPLE));
    r.tick(&mut m, 0);
    m.publish(Animation::Off);
    assert_eq!(r.tick(&mut m, 33), Frame::dark());
}

#[test]
fn fade_scenario_end_to_end() {
    let mut m = Mailbox::new();
    let mut r = Renderer::new();
    m.publish(Animation::FadeOnOff(PURPLE, 2_000));
    let expected = [(0u64, 0u8), (500, 127), (1_000, 255), (1_500, 127), (1_999, 0)];
    for (t, level) in expected {
        let f = r.tick(&mut m, t);
        assert_eq!(f.brightness, level);
        assert_eq!(f.color, Rgb { r: 138, g: 43, b: 226 });
    }
}

#[test]
fn sink_color_scales_then_corrects() {
    let full = Frame { color: Rgb { r: 255, g: 255, b: 0 }, brightness: 255 };
    assert_eq!(sink_color(&full), Rgb { r: 255, g: 255, b: 0 });
    let half = Frame { color: Rgb { r: 200, g: 100, b: 0 }, brightness: 127 };
    // 200 * 128 / 256 = 100 and 100 * 128 / 256 = 50, then through the gamma table
    assert_eq!(sink_color(&half), Rgb { r: 19, g: 3, b: 0 });
    let dark = Frame { color: Rgb { r: 255, g: 255, b: 255 }, brightness: 0 };
    assert_eq!(sink_color(&dark), Rgb { r: 0, g: 0, b: 0 });
}
