//! The polling memory widget: it owns a refreshable snapshot of the system
//! memory counters and, on each tick, refreshes the snapshot and emits
//! exactly one formatted display line.

use crate::source::{
    new_system, query_free_memory, query_free_swap, query_total_memory, query_total_swap,
    refresh_counters,
};
use crate::tier::{spec_tier, tier_of, Tier};
use crate::units::{format_bytes, spec_format_bytes};
use sysinfo::System;
use vstd::prelude::*;

verus! {

/// The in-memory mirror of the operating system's memory counters, all in
/// bytes. It is refreshed, not replaced, on each tick.
#[derive(Clone, Copy, PartialEq, Eq, Structural, Debug)]
pub struct MemorySnapshot {
    pub total_memory: u64,
    pub free_memory: u64,
    pub total_swap: u64,
    pub free_swap: u64,
}

/// One emitted display value: its text, whether the text carries markup that
/// the host must interpret, and whether the host should stretch it.
#[derive(Clone, Debug)]
pub struct DisplayLine {
    pub text: String,
    pub markup: bool,
    pub stretch: bool,
}

/// A formatting strategy chosen at construction time. `None` from [`render`]
/// means the renderer could produce nothing usable for this tick; the widget
/// then falls back to an empty line rather than failing the tick.
///
/// [`render`]: Renderer::render
pub trait Renderer {
    fn render(&self, snapshot: &MemorySnapshot) -> Option<String>;
}

/// The default display text: `(used/total)`. Note that the slot labelled
/// "used" deliberately carries the free-memory counter; this widget displays
/// free memory there.
pub open spec fn spec_default_line(s: MemorySnapshot) -> Seq<char> {
    seq!['('] + spec_format_bytes(s.free_memory as nat) + seq!['/'] + spec_format_bytes(
        s.total_memory as nat,
    ) + seq![')']
}

/// Whether `text` is the default format of some snapshot.
pub open spec fn is_default_line_text(text: Seq<char>) -> bool {
    exists|s: MemorySnapshot| text == spec_default_line(s)
}

/// Renders a snapshot in the default format, matching [`spec_default_line`].
pub fn default_format(s: &MemorySnapshot) -> (r: String)
    ensures
        r@ == spec_default_line(*s),
{
    proof {
        reveal_strlit("(");
        reveal_strlit("/");
        reveal_strlit(")");
        assert("("@ =~= seq!['(']);
        assert("/"@ =~= seq!['/']);
        assert(")"@ =~= seq![')']);
    }
    let mut out = String::from_str("(");
    let used = format_bytes(s.free_memory);
    out.append(used.as_str());
    out.append("/");
    let total = format_bytes(s.total_memory);
    out.append(total.as_str());
    out.append(")");
    out
}

/// The colour span value for each tier.
pub open spec fn spec_tier_color(t: Tier) -> Seq<char> {
    match t {
        Tier::Normal => "#ffffff"@,
        Tier::Warning => "#ffff00"@,
        Tier::Critical => "#ff0000"@,
    }
}

/// Maps a tier to its colour, matching [`spec_tier_color`].
pub fn tier_color(t: Tier) -> (r: &'static str)
    ensures
        r@ == spec_tier_color(t),
{
    match t {
        Tier::Normal => "#ffffff",
        Tier::Warning => "#ffff00",
        Tier::Critical => "#ff0000",
    }
}

/// The dual-metric display text: memory and swap each shown as a bracketed
/// `used/total` group, the used value wrapped in a colour span chosen by that
/// metric's own tier. Both metrics take the free counter as "used", as the
/// default format does.
pub open spec fn spec_dual_line(s: MemorySnapshot) -> Seq<char> {
    "<span foreground=\"#808080\">[</span>🧠 <span foreground=\""@ + spec_tier_color(
        spec_tier(s.free_memory as nat, s.total_memory as nat),
    ) + "\">"@ + spec_format_bytes(s.free_memory as nat) + "</span>/"@ + spec_format_bytes(
        s.total_memory as nat,
    ) + "<span foreground=\"#808080\">]</span> <span foreground=\"#808080\">[</span>💾 <span foreground=\""@
        + spec_tier_color(spec_tier(s.free_swap as nat, s.total_swap as nat)) + "\">"@
        + spec_format_bytes(s.free_swap as nat) + "</span>/"@ + spec_format_bytes(
        s.total_swap as nat,
    ) + "<span foreground=\"#808080\">]</span>"@
}

/// Renders a snapshot as the dual memory-and-swap markup line, matching
/// [`spec_dual_line`].
pub fn dual_metric_format(s: &MemorySnapshot) -> (r: String)
    ensures
        r@ == spec_dual_line(*s),
{
    let mem_tier = tier_of(s.free_memory, s.total_memory);
    let swap_tier = tier_of(s.free_swap, s.total_swap);
    let mut out = String::from_str("<span foreground=\"#808080\">[</span>🧠 <span foreground=\"");
    out.append(tier_color(mem_tier));
    out.append("\">");
    let used_mem = format_bytes(s.free_memory);
    out.append(used_mem.as_str());
    out.append("</span>/");
    let total_mem = format_bytes(s.total_memory);
    out.append(total_mem.as_str());
    out.append(
        "<span foreground=\"#808080\">]</span> <span foreground=\"#808080\">[</span>💾 <span foreground=\"",
    );
    out.append(tier_color(swap_tier));
    out.append("\">");
    let used_swap = format_bytes(s.free_swap);
    out.append(used_swap.as_str());
    out.append("</span>/");
    let total_swap = format_bytes(s.total_swap);
    out.append(total_swap.as_str());
    out.append("<span foreground=\"#808080\">]</span>");
    out
}

/// The dual memory-and-swap markup strategy, usable as a widget's custom
/// renderer.
#[derive(Clone, Copy, PartialEq, Eq, Structural, Debug)]
pub struct DualMetricRenderer;

impl Renderer for DualMetricRenderer {
    fn render(&self, snapshot: &MemorySnapshot) -> Option<String> {
        Some(dual_metric_format(snapshot))
    }
}

/// Wraps what a custom renderer produced into the emitted line: its text as
/// it stands, or an empty text where it produced nothing usable; the markup
/// flag is set because custom output may carry markup.
pub fn line_for_custom(rendered: Option<String>) -> (line: DisplayLine)
    ensures
        line.markup == true,
        line.stretch == false,
        match rendered {
            Some(s) => line.text@ == s@,
            None => line.text@ == Seq::<char>::empty(),
        },
{
    match rendered {
        Some(s) => DisplayLine { text: s, markup: true, stretch: false },
        None => DisplayLine { text: String::new(), markup: true, stretch: false },
    }
}

/// The polling memory widget. It owns the live counter handle, the snapshot
/// mirroring it, the optional custom renderer chosen at construction, and its
/// refresh interval.
pub struct MemoryUsage<R: Renderer> {
    handle: System,
    snapshot: MemorySnapshot,
    render: Option<R>,
    update_interval_secs: u64,
}

impl<R: Renderer> MemoryUsage<R> {
    /// The renderer chosen at construction.
    pub closed spec fn spec_render(&self) -> Option<R> {
        self.render
    }

    /// The counters as last refreshed.
    pub closed spec fn spec_snapshot(&self) -> MemorySnapshot {
        self.snapshot
    }

    /// The refresh interval, in seconds.
    pub closed spec fn spec_update_interval_secs(&self) -> u64 {
        self.update_interval_secs
    }

    /// Builds a widget, querying the operating system's counters immediately
    /// so that the first tick does not start from an empty snapshot. The
    /// refresh interval defaults to ten seconds.
    pub fn new(render: Option<R>) -> (w: MemoryUsage<R>)
        ensures
            w.spec_render() == render,
            w.spec_update_interval_secs() == 10,
    {
        let handle = new_system();
        let snapshot = MemorySnapshot {
            total_memory: query_total_memory(&handle),
            free_memory: query_free_memory(&handle),
            total_swap: query_total_swap(&handle),
            free_swap: query_free_swap(&handle),
        };
        MemoryUsage { handle, snapshot, render, update_interval_secs: 10 }
    }

    /// The same widget with another refresh interval, in seconds.
    pub fn with_update_interval_secs(self, secs: u64) -> (w: MemoryUsage<R>)
        ensures
            w.spec_render() == self.spec_render(),
            w.spec_snapshot() == self.spec_snapshot(),
            w.spec_update_interval_secs() == secs,
    {
        MemoryUsage { update_interval_secs: secs, ..self }
    }

    /// The interval, in seconds, at which the host should schedule ticks.
    pub fn update_interval_secs(&self) -> (secs: u64)
        ensures
            secs == self.spec_update_interval_secs(),
    {
        self.update_interval_secs
    }

    /// The counters as last refreshed.
    pub fn snapshot(&self) -> (s: MemorySnapshot)
        ensures
            s == self.spec_snapshot(),
    {
        self.snapshot
    }

    /// Whether a custom renderer was supplied at construction.
    pub fn has_renderer(&self) -> (b: bool)
        ensures
            b == (self.spec_render() is Some),
    {
        self.render.is_some()
    }

    /// One tick: refreshes the snapshot from the operating system, then emits
    /// exactly one display line. Without a custom renderer the line is the
    /// plain default format of the fresh snapshot; with one, the line carries
    /// whatever the renderer produced (empty where it produced nothing), and
    /// only then is the markup flag set.
    pub fn tick(&mut self) -> (line: DisplayLine)
        ensures
            final(self).spec_render() == old(self).spec_render(),
            final(self).spec_update_interval_secs() == old(self).spec_update_interval_secs(),
            line.stretch == false,
            line.markup == (old(self).spec_render() is Some),
            old(self).spec_render() is None ==> line.text@ == spec_default_line(
                final(self).spec_snapshot(),
            ),
    {
        refresh_counters(&mut self.handle);
        self.snapshot = MemorySnapshot {
            total_memory: query_total_memory(&self.handle),
            free_memory: query_free_memory(&self.handle),
            total_swap: query_total_swap(&self.handle),
            free_swap: query_free_swap(&self.handle),
        };
        match &self.render {
            None => DisplayLine {
                text: default_format(&self.snapshot),
                markup: false,
                stretch: false,
            },
            Some(r) => line_for_custom(r.render(&self.snapshot)),
        }
    }

    /// Runs `n` ticks and collects their lines: for `n` elapsed intervals,
    /// exactly `n` display lines are produced, none dropped and none
    /// duplicated, each unstretched and each marked up exactly when a custom
    /// renderer is present. Without a custom renderer, each line's text is
    /// the default format of the snapshot its tick refreshed.
    pub fn run_ticks(&mut self, n: usize) -> (lines: Vec<DisplayLine>)
        ensures
            lines.len() == n,
            final(self).spec_render() == old(self).spec_render(),
            final(self).spec_update_interval_secs() == old(self).spec_update_interval_secs(),
            forall|j: int|
                0 <= j < n ==> (#[trigger] lines@[j]).markup == (old(self).spec_render() is Some),
            forall|j: int| 0 <= j < n ==> (#[trigger] lines@[j]).stretch == false,
            old(self).spec_render() is None ==> forall|j: int|
                0 <= j < n ==> is_default_line_text((#[trigger] lines@[j]).text@),
    {
        let mut lines: Vec<DisplayLine> = Vec::new();
        let mut i: usize = 0;
        while i < n
            invariant
                i <= n,
                lines.len() == i,
                self.spec_render() == old(self).spec_render(),
                self.spec_update_interval_secs() == old(self).spec_update_interval_secs(),
                forall|j: int|
                    0 <= j < i ==> (#[trigger] lines@[j]).markup == (old(self).spec_render()
                        is Some),
                forall|j: int| 0 <= j < i ==> (#[trigger] lines@[j]).stretch == false,
                old(self).spec_render() is None ==> forall|j: int|
                    0 <= j < i ==> is_default_line_text((#[trigger] lines@[j]).text@),
            decreases n - i,
        {
            let line = self.tick();
            lines.push(line);
            proof {
                if old(self).spec_render() is None {
                    assert(lines@[i as int].text@ == spec_default_line(self.spec_snapshot()));
                    assert(is_default_line_text(lines@[i as int].text@));
                }
            }
            i = i + 1;
        }
        lines
    }
}

} // verus!
