use sprite_scenes::{Animation, DrawParams, Rectangle};

fn sheet(count: i32) -> Vec<Rectangle> {
    let mut frames = Vec::new();
    for i in 0..count {
        frames.push(Rectangle::new(16 * i, 0, 16, 16));
    }
    frames
}

fn tick_times<T>(animation: &mut Animation<T>, ticks: i32) {
    for _ in 0..ticks {
        animation.tick();
    }
}

#[test]
fn new_animation_starts_at_first_frame() {
    let animation = Animation::new("player", sheet(3), 5);
    assert_eq!(animation.current_frame(), 0);
    assert_eq!(animation.timer(), 0);
    assert_eq!(animation.frame_length(), 5);
    assert_eq!(animation.frames(), &sheet(3));
    assert_eq!(*animation.texture(), "player");
}

#[test]
fn frame_holds_until_its_time_is_up() {
    let mut animation = Animation::new((), sheet(3), 5);
    tick_times(&mut animation, 4);
    assert_eq!(animation.current_frame(), 0);
    assert_eq!(animation.timer(), 4);
    animation.tick();
    assert_eq!(animation.current_frame(), 1);
    assert_eq!(animation.timer(), 0);
}

#[test]
fn tick_counts_the_timer_up_by_one() {
    let mut animation = Animation::new((), sheet(2), 3);
    animation.tick();
    assert_eq!((animation.current_frame(), animation.timer()), (0, 1));
    animation.tick();
    assert_eq!((animation.current_frame(), animation.timer()), (0, 2));
    animation.tick();
    assert_eq!((animation.current_frame(), animation.timer()), (1, 0));
    animation.tick();
    assert_eq!((animation.current_frame(), animation.timer()), (1, 1));
}

#[test]
fn frame_length_ticks_advance_by_exactly_one_frame() {
    for count in 1..6 {
        for length in 1..7 {
            for start in 0..(2 * count * length) {
                let mut animation = Animation::new((), sheet(count), length);
                tick_times(&mut animation, start);
                let frame = animation.current_frame();
                let timer = animation.timer();
                tick_times(&mut animation, length);
                assert_eq!(animation.current_frame(), (frame + 1) % (count as usize));
                assert_eq!(animation.timer(), timer);
            }
        }
    }
}

#[test]
fn full_cycle_returns_to_the_start() {
    for count in 1..6 {
        for length in 1..7 {
            for start in 0..(count * length) {
                let mut animation = Animation::new((), sheet(count), length);
                tick_times(&mut animation, start);
                let frame = animation.current_frame();
                let timer = animation.timer();
                tick_times(&mut animation, count * length);
                assert_eq!(animation.current_frame(), frame);
                assert_eq!(animation.timer(), timer);
            }
        }
    }
}

#[test]
fn last_frame_wraps_to_the_first() {
    let mut animation = Animation::new((), sheet(3), 2);
    tick_times(&mut animation, 4);
    assert_eq!(animation.current_frame(), 2);
    tick_times(&mut animation, 2);
    assert_eq!(animation.current_frame(), 0);
}

#[test]
fn frame_length_of_one_advances_on_every_tick() {
    let mut animation = Animation::new((), sheet(4), 1);
    let mut seen = Vec::new();
    for _ in 0..9 {
        animation.tick();
        seen.push(animation.current_frame());
        assert_eq!(animation.timer(), 0);
    }
    assert_eq!(seen, vec![1, 2, 3, 0, 1, 2, 3, 0, 1]);
}

#[test]
fn single_frame_always_shows() {
    let mut animation = Animation::new((), sheet(1), 3);
    for _ in 0..10 {
        animation.tick();
        assert_eq!(animation.current_frame(), 0);
    }
    assert_eq!(animation.timer(), 1);
}

#[test]
fn closed_form_matches_stepping() {
    let count = 4;
    let length = 3;
    let mut animation = Animation::new((), sheet(count), length);
    for n in 1..50 {
        animation.tick();
        assert_eq!(animation.current_frame(), ((n / length) % count) as usize);
        assert_eq!(animation.timer(), n % length);
    }
}

#[test]
fn draw_without_clip_uses_the_current_frame() {
    let mut animation = Animation::new((), sheet(3), 2);
    for index in 0..3 {
        let out = animation.draw_params(DrawParams { style: (), clip: None });
        assert_eq!(out.clip, Some(Rectangle::new(16 * index, 0, 16, 16)));
        tick_times(&mut animation, 2);
    }
}

#[test]
fn draw_adds_the_callers_clip_to_the_frame() {
    let mut animation = Animation::new((), sheet(3), 1);
    tick_times(&mut animation, 2);
    assert_eq!(animation.current_frame(), 2);
    let out = animation.draw_params(DrawParams {
        style: (),
        clip: Some(Rectangle::new(4, 4, 0, 0)),
    });
    assert_eq!(out.clip, Some(Rectangle::new(36, 4, 16, 16)));
}

#[test]
fn draw_adds_sizes_and_does_not_intersect() {
    let animation = Animation::new((), vec![Rectangle::new(10, 20, 30, 40)], 1);
    let out = animation.draw_params(DrawParams {
        style: (),
        clip: Some(Rectangle::new(-3, 5, 8, -10)),
    });
    assert_eq!(out.clip, Some(Rectangle::new(7, 25, 38, 30)));
}

#[test]
fn draw_hands_the_style_on_unchanged() {
    let animation = Animation::new((), sheet(2), 1);
    let style = (String::from("tint"), 7u8, [1i16, 2, 3]);
    let out = animation.draw_params(DrawParams { style: style.clone(), clip: None });
    assert_eq!(out.style, style);
    let out = animation
        .checked_draw_params(DrawParams {
            style: style.clone(),
            clip: Some(Rectangle::new(1, 1, 1, 1)),
        })
        .unwrap();
    assert_eq!(out.style, style);
    assert_eq!(out.clip, Some(Rectangle::new(1, 1, 17, 17)));
}

#[test]
fn draw_leaves_playback_alone() {
    let mut animation = Animation::new((), sheet(3), 4);
    tick_times(&mut animation, 6);
    let frame = animation.current_frame();
    let timer = animation.timer();
    let clip = Some(Rectangle::new(2, 3, 4, 5));
    let first = animation.draw_params(DrawParams { style: 1u8, clip }).clip;
    for _ in 0..25 {
        let again = animation.draw_params(DrawParams { style: 1u8, clip }).clip;
        assert_eq!(again, first);
        assert_eq!(animation.current_frame(), frame);
        assert_eq!(animation.timer(), timer);
    }
    assert_eq!(first, Some(Rectangle::new(18, 3, 20, 21)));
    animation.tick();
    animation.tick();
    assert_eq!(animation.current_frame(), frame + 1);
}

#[test]
fn checked_draw_refuses_a_clip_that_does_not_fit() {
    let animation = Animation::new((), vec![Rectangle::new(1, 0, 16, 16)], 1);
    let too_far = DrawParams { style: (), clip: Some(Rectangle::new(i32::MAX, 0, 0, 0)) };
    assert!(animation.checked_draw_params(too_far).is_none());
    let just_fits = DrawParams { style: (), clip: Some(Rectangle::new(i32::MAX - 1, 0, 0, 0)) };
    let out = animation.checked_draw_params(just_fits).unwrap();
    assert_eq!(out.clip, Some(Rectangle::new(i32::MAX, 0, 16, 16)));
    let none = DrawParams { style: (), clip: None };
    assert_eq!(
        animation.checked_draw_params(none).unwrap().clip,
        Some(Rectangle::new(1, 0, 16, 16))
    );
}
