//! The boot animation shown on the serial console.
//!
//! [`render`] returns the animation as a script of [`BootStep`]s: a text to
//! write, then a pause. The caller writes each text through the console and
//! waits the given number of milliseconds before the next step.
use vstd::prelude::*;

verus! {

/// Pause after each frame of a progress bar, in milliseconds.
pub const FRAME_PAUSE_MS: u64 = 70;

/// Number of frames of a progress bar.
pub const FRAME_COUNT: usize = 6;

/// One step of the boot animation: write `text`, then pause `pause_ms`
/// milliseconds.
#[derive(Debug)]
pub struct BootStep {
    /// Text to write to the console.
    pub text: String,
    /// Milliseconds to wait after writing it.
    pub pause_ms: u64,
}

impl View for BootStep {
    type V = (Seq<char>, u64);

    open spec fn view(&self) -> (Seq<char>, u64) {
        (self.text@, self.pause_ms)
    }
}

/// ANSI: reset all attributes.
pub open spec fn ansi_reset() -> Seq<char> {
    "\x1b[0m"@
}

/// ANSI: bold.
pub open spec fn ansi_bold() -> Seq<char> {
    "\x1b[1m"@
}

/// ANSI: cyan foreground.
pub open spec fn ansi_cyan() -> Seq<char> {
    "\x1b[36m"@
}

/// ANSI: bright green foreground.
pub open spec fn ansi_green() -> Seq<char> {
    "\x1b[92m"@
}

/// ANSI: dim.
pub open spec fn ansi_dim() -> Seq<char> {
    "\x1b[2m"@
}

/// The `k`-th frame of a progress bar.
pub open spec fn spec_frame(k: int) -> Seq<char> {
    if k == 0 {
        "[=     ]"@
    } else if k == 1 {
        "[==    ]"@
    } else if k == 2 {
        "[===   ]"@
    } else if k == 3 {
        "[ ==== ]"@
    } else if k == 4 {
        "[  === ]"@
    } else {
        "[   == ]"@
    }
}

/// The line drawn for frame `k` of the progress bar of `label`: it returns
/// the carriage first, so that each frame overwrites the previous one.
pub open spec fn frame_line(k: int, label: Seq<char>) -> Seq<char> {
    "\r"@ + ansi_cyan() + "boot"@ + ansi_reset() + " "@ + spec_frame(k) + " "@ + label
}

/// The line that closes the progress bar of `label`.
pub open spec fn done_line(label: Seq<char>) -> Seq<char> {
    "\r"@ + ansi_green() + "ok  "@ + ansi_reset() + " "@ + label + "\n"@
}

/// The steps of one phase: the six frames, each followed by a pause of
/// [`FRAME_PAUSE_MS`], then the closing line with no pause.
pub open spec fn phase_script(label: Seq<char>) -> Seq<(Seq<char>, u64)> {
    Seq::new(FRAME_COUNT as nat, |k: int| (frame_line(k, label), FRAME_PAUSE_MS)).push(
        (done_line(label), 0),
    )
}

/// `prefix + text + reset + "\n"`.
pub open spec fn styled_line(prefix: Seq<char>, text: Seq<char>) -> Seq<char> {
    prefix + text + ansi_reset() + "\n"@
}

/// The labels of the three boot phases, in order.
pub open spec fn phase_labels() -> Seq<Seq<char>> {
    seq![
        "priming bare-metal runtime"@,
        "probing virtio-mmio network"@,
        "arming tcp listener on :8080"@,
    ]
}

/// The banner and blank line written before the phases.
pub open spec fn header_script() -> Seq<(Seq<char>, u64)> {
    let logo = ansi_cyan() + ansi_bold();
    seq![
        ("\x1b[2J\x1b[H\x1b[?25l"@, 0u64),
        (styled_line(logo, "   __  __      _ ______    _            "@), 0u64),
        (styled_line(logo, "  / / / /___  (_) ____/___| | __ _  ___ "@), 0u64),
        (styled_line(logo, " / / / / __ \\/ / __/ / __| |/ _` |/ _ \\"@), 0u64),
        (styled_line(logo, "/ /_/ / / / / / /___\\__ \\ | (_| |  __/"@), 0u64),
        (styled_line(logo, "\\____/_/ /_/_/_____/___/_|\\__, |\\___|"@), 0u64),
        (styled_line(logo, "                          |___/      "@), 0u64),
        ("\n"@, 0u64),
    ]
}

/// The lines written after the phases; the last one shows the cursor again.
pub open spec fn footer_script() -> Seq<(Seq<char>, u64)> {
    seq![
        ("\n"@, 0u64),
        (styled_line(ansi_green() + ansi_bold(), "UniEdge is alive!"@), 0u64),
        (styled_line(ansi_dim(), "serial: pl011 | web: http://127.0.0.1:8080"@), 0u64),
        ("\n"@, 0u64),
        ("\x1b[?25h"@, 0u64),
    ]
}

/// The whole boot animation.
pub open spec fn render_script() -> Seq<(Seq<char>, u64)> {
    header_script() + phase_script(phase_labels()[0]) + phase_script(phase_labels()[1])
        + phase_script(phase_labels()[2]) + footer_script()
}

/// The views of a list of steps.
pub open spec fn script_of(steps: Seq<BootStep>) -> Seq<(Seq<char>, u64)> {
    steps.map_values(|s: BootStep| s@)
}

proof fn script_of_push(steps: Seq<BootStep>, step: BootStep)
    ensures
        script_of(steps.push(step)) == script_of(steps).push(step@),
{
    assert(script_of(steps.push(step)) =~= script_of(steps).push(step@));
}

proof fn script_of_concat(a: Seq<BootStep>, b: Seq<BootStep>)
    ensures
        script_of(a + b) == script_of(a) + script_of(b),
{
    assert(script_of(a + b) =~= script_of(a) + script_of(b));
}

fn frame(k: usize) -> (r: &'static str)
    requires
        k < FRAME_COUNT,
    ensures
        r@ == spec_frame(k as int),
{
    if k == 0 {
        "[=     ]"
    } else if k == 1 {
        "[==    ]"
    } else if k == 2 {
        "[===   ]"
    } else if k == 3 {
        "[ ==== ]"
    } else if k == 4 {
        "[  === ]"
    } else {
        "[   == ]"
    }
}

fn text_step(text: &str, pause_ms: u64) -> (r: BootStep)
    ensures
        r@ == (text@, pause_ms),
{
    BootStep { text: String::from_str(text), pause_ms }
}

fn styled(prefix1: &str, prefix2: &str, text: &str) -> (r: BootStep)
    ensures
        r@ == (styled_line(prefix1@ + prefix2@, text@), 0u64),
{
    let mut s = String::from_str(prefix1);
    s.append(prefix2);
    s.append(text);
    s.append("\x1b[0m");
    s.append("\n");
    assert(s@ =~= styled_line(prefix1@ + prefix2@, text@));
    BootStep { text: s, pause_ms: 0 }
}

/// The steps of one boot phase named `label`: six progress-bar frames, each
/// drawn over the previous one and followed by a pause of [`FRAME_PAUSE_MS`],
/// then a line marking the phase done.
pub fn phase(label: &str) -> (r: Vec<BootStep>)
    ensures
        script_of(r@) == phase_script(label@),
{
    let mut steps: Vec<BootStep> = Vec::new();
    let mut k: usize = 0;
    while k < FRAME_COUNT
        invariant
            k <= FRAME_COUNT,
            script_of(steps@) =~= Seq::new(
                k as nat,
                |j: int| (frame_line(j, label@), FRAME_PAUSE_MS),
            ),
        decreases FRAME_COUNT - k,
    {
        let mut s = String::from_str("\r");
        s.append("\x1b[36m");
        s.append("boot");
        s.append("\x1b[0m");
        s.append(" ");
        s.append(frame(k));
        s.append(" ");
        s.append(label);
        assert(s@ =~= frame_line(k as int, label@));
        let step = BootStep { text: s, pause_ms: FRAME_PAUSE_MS };
        proof {
            script_of_push(steps@, step);
        }
        steps.push(step);
        k = k + 1;
    }
    let mut done = String::from_str("\r");
    done.append("\x1b[92m");
    done.append("ok  ");
    done.append("\x1b[0m");
    done.append(" ");
    done.append(label);
    done.append("\n");
    assert(done@ =~= done_line(label@));
    let step = BootStep { text: done, pause_ms: 0 };
    proof {
        script_of_push(steps@, step);
    }
    steps.push(step);
    assert(script_of(steps@) =~= phase_script(label@));
    steps
}

fn append_steps(steps: &mut Vec<BootStep>, more: Vec<BootStep>)
    ensures
        script_of(final(steps)@) == script_of(old(steps)@) + script_of(more@),
{
    let mut more = more;
    let ghost added = more@;
    steps.append(&mut more);
    proof {
        script_of_concat(old(steps)@, added);
    }
}

/// The boot animation: clear the screen and hide the cursor, draw the logo,
/// run the three boot phases, announce that the kernel is alive with the
/// address of its web server, and show the cursor again.
pub fn render() -> (r: Vec<BootStep>)
    ensures
        script_of(r@) == render_script(),
{
    let mut steps: Vec<BootStep> = Vec::new();
    steps.push(text_step("\x1b[2J\x1b[H\x1b[?25l", 0));
    steps.push(styled("\x1b[36m", "\x1b[1m", "   __  __      _ ______    _            "));
    steps.push(styled("\x1b[36m", "\x1b[1m", "  / / / /___  (_) ____/___| | __ _  ___ "));
    steps.push(styled("\x1b[36m", "\x1b[1m", " / / / / __ \\/ / __/ / __| |/ _` |/ _ \\"));
    steps.push(styled("\x1b[36m", "\x1b[1m", "/ /_/ / / / / / /___\\__ \\ | (_| |  __/"));
    steps.push(styled("\x1b[36m", "\x1b[1m", "\\____/_/ /_/_/_____/___/_|\\__, |\\___|"));
    steps.push(styled("\x1b[36m", "\x1b[1m", "                          |___/      "));
    steps.push(text_step("\n", 0));
    assert(script_of(steps@) =~= header_script());
    append_steps(&mut steps, phase("priming bare-metal runtime"));
    append_steps(&mut steps, phase("probing virtio-mmio network"));
    append_steps(&mut steps, phase("arming tcp listener on :8080"));
    let mut footer: Vec<BootStep> = Vec::new();
    footer.push(text_step("\n", 0));
    footer.push(styled("\x1b[92m", "\x1b[1m", "UniEdge is alive!"));
    footer.push(styled("\x1b[2m", "", "serial: pl011 | web: http://127.0.0.1:8080"));
    footer.push(text_step("\n", 0));
    footer.push(text_step("\x1b[?25h", 0));
    proof {
        reveal_strlit("");
        assert("\x1b[2m"@ + ""@ =~= ansi_dim());
    }
    assert(script_of(footer@) =~= footer_script());
    append_steps(&mut steps, footer);
    steps
}

/// Each phase draws its bar frame by frame, from `[=     ]` to `[   == ]`,
/// every frame returning the carriage, labelled `boot` in cyan and followed
/// by a 70 ms pause; then it prints `ok` in green with the label and a line
/// feed, without a pause.
pub proof fn phase_frames_in_order(label: Seq<char>)
    ensures
        phase_script(label).len() == 7,
        phase_script(label)[0] == ("\r\x1b[36mboot\x1b[0m "@ + "[=     ]"@ + " "@ + label, 70u64),
        phase_script(label)[1] == ("\r\x1b[36mboot\x1b[0m "@ + "[==    ]"@ + " "@ + label, 70u64),
        phase_script(label)[2] == ("\r\x1b[36mboot\x1b[0m "@ + "[===   ]"@ + " "@ + label, 70u64),
        phase_script(label)[3] == ("\r\x1b[36mboot\x1b[0m "@ + "[ ==== ]"@ + " "@ + label, 70u64),
        phase_script(label)[4] == ("\r\x1b[36mboot\x1b[0m "@ + "[  === ]"@ + " "@ + label, 70u64),
        phase_script(label)[5] == ("\r\x1b[36mboot\x1b[0m "@ + "[   == ]"@ + " "@ + label, 70u64),
        phase_script(label)[6] == ("\r\x1b[92mok  \x1b[0m "@ + label + "\n"@, 0u64),
{
    reveal_strlit("\r\x1b[36mboot\x1b[0m ");
    reveal_strlit("\r\x1b[92mok  \x1b[0m ");
    reveal_strlit("\r");
    reveal_strlit("\x1b[36m");
    reveal_strlit("\x1b[92m");
    reveal_strlit("boot");
    reveal_strlit("ok  ");
    reveal_strlit("\x1b[0m");
    reveal_strlit(" ");
    let prefix = "\r\x1b[36mboot\x1b[0m "@;
    assert("\r"@ + ansi_cyan() + "boot"@ + ansi_reset() + " "@ =~= prefix);
    assert forall|k: int| 0 <= k < 6 implies #[trigger] frame_line(k, label) =~= prefix
        + spec_frame(k) + " "@ + label by {
        assert("\r"@ + ansi_cyan() + "boot"@ + ansi_reset() + " "@ + spec_frame(k) + " "@ + label
            =~= prefix + spec_frame(k) + " "@ + label);
    }
    assert(frame_line(0, label) =~= prefix + "[=     ]"@ + " "@ + label);
    assert(frame_line(1, label) =~= prefix + "[==    ]"@ + " "@ + label);
    assert(frame_line(2, label) =~= prefix + "[===   ]"@ + " "@ + label);
    assert(frame_line(3, label) =~= prefix + "[ ==== ]"@ + " "@ + label);
    assert(frame_line(4, label) =~= prefix + "[  === ]"@ + " "@ + label);
    assert(frame_line(5, label) =~= prefix + "[   == ]"@ + " "@ + label);
    assert(done_line(label) =~= "\r\x1b[92mok  \x1b[0m "@ + label + "\n"@);
}

/// The animation starts by clearing the screen, homing and hiding the
/// cursor, then draws the six lines of the logo top to bottom, each in bold
/// cyan ending with a reset and a line feed, and a blank line, all without a
/// pause.
pub proof fn render_draws_logo_top_to_bottom()
    ensures
        render_script()[0] == ("\x1b[2J\x1b[H\x1b[?25l"@, 0u64),
        render_script()[1] == ("\x1b[36m\x1b[1m"@ + "   __  __      _ ______    _            "@
            + "\x1b[0m\n"@, 0u64),
        render_script()[2] == ("\x1b[36m\x1b[1m"@ + "  / / / /___  (_) ____/___| | __ _  ___ "@
            + "\x1b[0m\n"@, 0u64),
        render_script()[3] == ("\x1b[36m\x1b[1m"@ + " / / / / __ \\/ / __/ / __| |/ _` |/ _ \\"@
            + "\x1b[0m\n"@, 0u64),
        render_script()[4] == ("\x1b[36m\x1b[1m"@ + "/ /_/ / / / / / /___\\__ \\ | (_| |  __/"@
            + "\x1b[0m\n"@, 0u64),
        render_script()[5] == ("\x1b[36m\x1b[1m"@ + "\\____/_/ /_/_/_____/___/_|\\__, |\\___|"@
            + "\x1b[0m\n"@, 0u64),
        render_script()[6] == ("\x1b[36m\x1b[1m"@ + "                          |___/      "@
            + "\x1b[0m\n"@, 0u64),
        render_script()[7] == ("\n"@, 0u64),
{
    reveal_strlit("\x1b[36m\x1b[1m");
    reveal_strlit("\x1b[0m\n");
    reveal_strlit("\x1b[36m");
    reveal_strlit("\x1b[1m");
    reveal_strlit("\x1b[0m");
    reveal_strlit("\n");
    let logo = ansi_cyan() + ansi_bold();
    assert(logo =~= "\x1b[36m\x1b[1m"@);
    assert forall|x: Seq<char>| #[trigger] styled_line(logo, x) =~= "\x1b[36m\x1b[1m"@ + x
        + "\x1b[0m\n"@ by {}
    let r = render_script();
    let h = header_script();
    assert(r =~= h + (phase_script(phase_labels()[0]) + phase_script(phase_labels()[1])
        + phase_script(phase_labels()[2]) + footer_script()));
    assert(r[1] == h[1]);
    assert(r[2] == h[2]);
    assert(r[3] == h[3]);
    assert(r[4] == h[4]);
    assert(r[5] == h[5]);
    assert(r[6] == h[6]);
}

/// After the logo come the three phases, in order: priming the runtime,
/// probing the network device, arming the listener on port 8080; then a
/// blank line, `UniEdge is alive!` in bold green, the serial and web
/// addresses dimmed, a blank line, and the cursor shown again.
pub proof fn render_phases_then_announcement()
    ensures
        render_script().len() == 34,
        render_script().subrange(8, 15) == phase_script("priming bare-metal runtime"@),
        render_script().subrange(15, 22) == phase_script("probing virtio-mmio network"@),
        render_script().subrange(22, 29) == phase_script("arming tcp listener on :8080"@),
        render_script()[29] == ("\n"@, 0u64),
        render_script()[30] == ("\x1b[92m\x1b[1m"@ + "UniEdge is alive!"@ + "\x1b[0m\n"@, 0u64),
        render_script()[31] == ("\x1b[2m"@ + "serial: pl011 | web: http://127.0.0.1:8080"@
            + "\x1b[0m\n"@, 0u64),
        render_script()[32] == ("\n"@, 0u64),
        render_script()[33] == ("\x1b[?25h"@, 0u64),
{
    reveal_strlit("\x1b[92m\x1b[1m");
    reveal_strlit("\x1b[0m\n");
    reveal_strlit("\x1b[92m");
    reveal_strlit("\x1b[1m");
    reveal_strlit("\x1b[0m");
    reveal_strlit("\x1b[2m");
    reveal_strlit("\n");
    let r = render_script();
    let h = header_script();
    let p0 = phase_script(phase_labels()[0]);
    let p1 = phase_script(phase_labels()[1]);
    let p2 = phase_script(phase_labels()[2]);
    let f = footer_script();
    assert(r.subrange(8, 15) =~= p0);
    assert(r.subrange(15, 22) =~= p1);
    assert(r.subrange(22, 29) =~= p2);
    assert(r[29] == f[0]);
    assert(r[30] == f[1]);
    assert(r[31] == f[2]);
    assert(r[32] == f[3]);
    assert(r[33] == f[4]);
    assert(ansi_green() + ansi_bold() =~= "\x1b[92m\x1b[1m"@);
    assert(styled_line(ansi_green() + ansi_bold(), "UniEdge is alive!"@) =~= "\x1b[92m\x1b[1m"@
        + "UniEdge is alive!"@ + "\x1b[0m\n"@);
    assert(styled_line(ansi_dim(), "serial: pl011 | web: http://127.0.0.1:8080"@) =~= "\x1b[2m"@
        + "serial: pl011 | web: http://127.0.0.1:8080"@ + "\x1b[0m\n"@);
}

/// Milliseconds a script pauses in all.
pub open spec fn total_pause(script: Seq<(Seq<char>, u64)>) -> int
    decreases script.len(),
{
    if script.len() == 0 {
        0
    } else {
        script[0].1 + total_pause(script.drop_first())
    }
}

proof fn total_pause_concat(a: Seq<(Seq<char>, u64)>, b: Seq<(Seq<char>, u64)>)
    ensures
        total_pause(a + b) == total_pause(a) + total_pause(b),
    decreases a.len(),
{
    if a.len() == 0 {
        assert(a + b =~= b);
    } else {
        total_pause_concat(a.drop_first(), b);
        assert((a + b).drop_first() =~= a.drop_first() + b);
    }
}

/// Each phase pauses six times [`FRAME_PAUSE_MS`], one pause per frame.
pub proof fn phase_pause(label: Seq<char>)
    ensures
        total_pause(phase_script(label)) == 6 * FRAME_PAUSE_MS,
{
    let s = phase_script(label);
    assert(s.drop_first().drop_first().drop_first().drop_first().drop_first().drop_first().drop_first()
        =~= Seq::<(Seq<char>, u64)>::empty());
    reveal_with_fuel(total_pause, 8);
}

/// The boot animation takes `3 * 6 * 70 = 1260` ms of pauses: only the
/// progress-bar frames pause.
pub proof fn render_pause()
    ensures
        total_pause(render_script()) == 3 * 6 * FRAME_PAUSE_MS,
{
    let h = header_script();
    let p0 = phase_script(phase_labels()[0]);
    let p1 = phase_script(phase_labels()[1]);
    let p2 = phase_script(phase_labels()[2]);
    let f = footer_script();
    total_pause_concat(h, p0);
    total_pause_concat(h + p0, p1);
    total_pause_concat(h + p0 + p1, p2);
    total_pause_concat(h + p0 + p1 + p2, f);
    phase_pause(phase_labels()[0]);
    phase_pause(phase_labels()[1]);
    phase_pause(phase_labels()[2]);
    reveal_with_fuel(total_pause, 9);
}

} // verus!
