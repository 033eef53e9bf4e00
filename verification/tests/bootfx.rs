use uniedge::bootfx::{phase, render, FRAME_PAUSE_MS};

#[test]
fn phase_draws_six_frames_then_done_line() {
    let steps = phase("probing");
    assert_eq!(steps.len(), 7);
    let frames = ["[=     ]", "[==    ]", "[===   ]", "[ ==== ]", "[  === ]", "[   == ]"];
    for (k, frame) in frames.iter().enumerate() {
        assert_eq!(steps[k].text, format!("\r\x1b[36mboot\x1b[0m {frame} probing"));
        assert_eq!(steps[k].pause_ms, 70);
    }
    assert_eq!(steps[6].text, "\r\x1b[92mok  \x1b[0m probing\n");
    assert_eq!(steps[6].pause_ms, 0);
    assert_eq!(FRAME_PAUSE_MS, 70);
}

#[test]
fn render_starts_by_clearing_and_ends_by_showing_cursor() {
    let steps = render();
    assert_eq!(steps.len(), 8 + 3 * 7 + 5);
    assert_eq!(steps[0].text, "\x1b[2J\x1b[H\x1b[?25l");
    assert_eq!(steps[steps.len() - 1].text, "\x1b[?25h");
}

#[test]
fn render_draws_logo_and_announcement() {
    let steps = render();
    assert_eq!(
        steps[1].text,
        "\x1b[36m\x1b[1m   __  __      _ ______    _            \x1b[0m\n"
    );
    assert_eq!(
        steps[3].text,
        "\x1b[36m\x1b[1m / / / / __ \\/ / __/ / __| |/ _` |/ _ \\\x1b[0m\n"
    );
    assert_eq!(steps[7].text, "\n");
    let n = steps.len();
    assert_eq!(steps[n - 4].text, "\x1b[92m\x1b[1mUniEdge is alive!\x1b[0m\n");
    assert_eq!(
        steps[n - 3].text,
        "\x1b[2mserial: pl011 | web: http://127.0.0.1:8080\x1b[0m\n"
    );
}

#[test]
fn render_runs_three_phases_in_order() {
    let steps = render();
    assert!(steps[8].text.ends_with(" priming bare-metal runtime"));
    assert_eq!(steps[14].text, "\r\x1b[92mok  \x1b[0m priming bare-metal runtime\n");
    assert!(steps[15].text.ends_with(" probing virtio-mmio network"));
    assert!(steps[22].text.ends_with(" arming tcp listener on :8080"));
    assert_eq!(steps[28].text, "\r\x1b[92mok  \x1b[0m arming tcp listener on :8080\n");
}

#[test]
fn render_pauses_only_between_frames() {
    let steps = render();
    let total: u64 = steps.iter().map(|s| s.pause_ms).sum();
    assert_eq!(total, 3 * 6 * 70);
    for s in &steps {
        assert!(s.pause_ms == 0 || s.text.starts_with("\r\x1b[36mboot"));
    }
}
