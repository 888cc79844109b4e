//! Where the shell's animations are headed: the page slide, the fade-in of newly
//! shown panes and the ratio preview of a drag. The springs that move towards these
//! targets frame by frame run in the front end; this module decides the targets.

use vstd::prelude::*;

use crate::layout_state::PaneId;

verus! {

/// Target of the page slide: the workspace (at rest) or the connection list.
#[derive(Clone, Copy, PartialEq, Eq, Debug, Structural)]
pub enum SlideTarget {
    Workspace,
    Connections,
}

/// Target of the split-ratio preview: centred (at rest) or the ratio that an
/// insertion by drag would give.
#[derive(Clone, Copy, PartialEq, Eq, Debug, Structural)]
pub enum PreviewTarget {
    Centered,
    Insert,
}

/// The animation targets of the shell.
pub struct ShellAnimations {
    pub page_slide: SlideTarget,
    /// The running fade-ins: each pane with the number of the start that began its
    /// fade. A new number tells the front end to run that pane's fade from the start.
    pub session_fade: Vec<(PaneId, u64)>,
    /// How many fade-ins have been started; the next start gets this number.
    pub fade_starts: u64,
    pub preview_ratio: PreviewTarget,
    pub preview_active: bool,
}

/// The animation targets as plain values.
pub struct AnimationsView {
    pub page_slide: SlideTarget,
    pub session_fade: Seq<(PaneId, u64)>,
    pub fade_starts: u64,
    pub preview_ratio: PreviewTarget,
    pub preview_active: bool,
}

impl View for ShellAnimations {
    type V = AnimationsView;

    open spec fn view(&self) -> AnimationsView {
        AnimationsView {
            page_slide: self.page_slide,
            session_fade: self.session_fade@,
            fade_starts: self.fade_starts,
            preview_ratio: self.preview_ratio,
            preview_active: self.preview_active,
        }
    }
}

/// Targets at rest: the workspace shown, no fade running, no preview.
pub open spec fn animations_at_rest(a: AnimationsView) -> bool {
    &&& a.page_slide == SlideTarget::Workspace
    &&& a.session_fade.len() == 0
    &&& a.fade_starts == 0
    &&& a.preview_ratio == PreviewTarget::Centered
    &&& !a.preview_active
}

/// The running fades after fade-in number `start` of `pane` begins: an earlier fade
/// of the pane is replaced, so the pane's fade runs from the start again.
pub open spec fn fade_in_spec(fades: Seq<(PaneId, u64)>, pane: PaneId, start: u64) -> Seq<(PaneId, u64)> {
    fades.filter(other_than(pane)).push((pane, start))
}

/// Whether a fade of `pane` runs.
pub open spec fn fading(fades: Seq<(PaneId, u64)>, pane: PaneId) -> bool {
    exists|k: int| 0 <= k < fades.len() && (#[trigger] fades[k]).0 == pane
}

/// Holds of the fades of every pane but `pane`.
pub open spec fn other_than(pane: PaneId) -> spec_fn((PaneId, u64)) -> bool {
    |e: (PaneId, u64)| e.0 != pane
}

/// The preview part of the targets after a drag preview begins.
pub open spec fn begin_preview_spec(a: AnimationsView) -> AnimationsView {
    AnimationsView { preview_active: true, preview_ratio: PreviewTarget::Insert, ..a }
}

/// The preview part of the targets after a drag preview ends.
pub open spec fn end_preview_spec(a: AnimationsView) -> AnimationsView {
    AnimationsView { preview_active: false, preview_ratio: PreviewTarget::Centered, ..a }
}

impl ShellAnimations {
    /// Targets at rest.
    pub fn new() -> (a: ShellAnimations)
        ensures
            animations_at_rest(a@),
    {
        ShellAnimations {
            page_slide: SlideTarget::Workspace,
            session_fade: Vec::new(),
            fade_starts: 0,
            preview_ratio: PreviewTarget::Centered,
            preview_active: false,
        }
    }

    /// The page slides towards the connection list.
    pub fn on_page_connections(&mut self)
        ensures
            final(self)@ == (AnimationsView { page_slide: SlideTarget::Connections, ..old(self)@ }),
    {
        self.page_slide = SlideTarget::Connections;
    }

    /// The page slides back to the workspace.
    pub fn on_page_workspace(&mut self)
        ensures
            final(self)@ == (AnimationsView { page_slide: SlideTarget::Workspace, ..old(self)@ }),
    {
        self.page_slide = SlideTarget::Workspace;
    }

    /// Starts the fade-in of `pane` from the beginning, replacing a fade of it that
    /// runs.
    pub fn fade_in_pane(&mut self, pane: PaneId)
        requires
            old(self).fade_starts < u64::MAX,
        ensures
            final(self)@ == (AnimationsView {
                session_fade: fade_in_spec(old(self)@.session_fade, pane, old(self).fade_starts),
                fade_starts: (old(self).fade_starts + 1) as u64,
                ..old(self)@
            }),
    {
        self.end_fade(pane);
        self.session_fade.push((pane, self.fade_starts));
        self.fade_starts = self.fade_starts + 1;
    }

    /// Whether the fade-in of `pane` is running; where none runs, the pane is shown
    /// fully.
    pub fn is_fading(&self, pane: PaneId) -> (r: bool)
        ensures
            r == fading(self@.session_fade, pane),
    {
        let mut i: usize = 0;
        while i < self.session_fade.len()
            invariant
                i <= self.session_fade@.len(),
                forall|k: int| 0 <= k < i ==> self.session_fade@[k].0 != pane,
            decreases self.session_fade@.len() - i,
        {
            if self.session_fade[i].0 == pane {
                assert(self.session_fade@[i as int].0 == pane);
                return true;
            }
            i = i + 1;
        }
        false
    }

    /// Drops the fade of `pane`, once it has come to rest.
    pub fn end_fade(&mut self, pane: PaneId)
        ensures
            final(self)@ == (AnimationsView {
                session_fade: old(self)@.session_fade.filter(other_than(pane)),
                ..old(self)@
            }),
    {
        let mut kept: Vec<(PaneId, u64)> = Vec::new();
        let mut i: usize = 0;
        while i < self.session_fade.len()
            invariant
                i <= self.session_fade@.len(),
                self.session_fade@ == old(self).session_fade@,
                kept@ == self.session_fade@.take(i as int).filter(other_than(pane)),
            decreases self.session_fade@.len() - i,
        {
            let p = self.session_fade[i];
            proof {
                let s = self.session_fade@;
                assert(s.take(i as int + 1).drop_last() =~= s.take(i as int));
                reveal(Seq::filter);
            }
            if p.0 != pane {
                kept.push(p);
            }
            i = i + 1;
        }
        proof {
            assert(self.session_fade@.take(i as int) =~= self.session_fade@);
        }
        self.session_fade = kept;
    }

    /// A drag preview begins: the ratio heads for the insertion ratio.
    pub fn begin_preview(&mut self)
        ensures
            final(self)@ == begin_preview_spec(old(self)@),
    {
        self.preview_active = true;
        self.preview_ratio = PreviewTarget::Insert;
    }

    /// The drag preview ends: the ratio heads back to the centre.
    pub fn end_preview(&mut self)
        ensures
            final(self)@ == end_preview_spec(old(self)@),
    {
        self.preview_active = false;
        self.preview_ratio = PreviewTarget::Centered;
    }
}

impl Default for ShellAnimations {
    fn default() -> (a: ShellAnimations)
        ensures
            animations_at_rest(a@),
    {
        ShellAnimations::new()
    }
}

/// Ending a drag preview undoes beginning it: from targets whose preview is at rest,
/// beginning and then ending a preview gives back the same targets.
pub proof fn law_end_preview_undoes_begin(a: AnimationsView)
    requires
        !a.preview_active,
        a.preview_ratio == PreviewTarget::Centered,
    ensures
        end_preview_spec(begin_preview_spec(a)) == a,
{
}

/// Starting the fade-in of a pane replaces any fade of it that runs: afterwards its
/// only fade is the one just started, every other pane's fades stay as they were, and
/// ending the pane's fade stops it while leaving the others.
pub proof fn law_fade_in_restarts(fades: Seq<(PaneId, u64)>, pane: PaneId, start: u64, e: (PaneId, u64))
    ensures
        fade_in_spec(fades, pane, start).last() == (pane, start),
        fading(fade_in_spec(fades, pane, start), pane),
        e.0 == pane && fade_in_spec(fades, pane, start).contains(e) ==> e.1 == start,
        e.0 != pane ==> (fade_in_spec(fades, pane, start).contains(e) <==> fades.contains(e)),
        !fading(fade_in_spec(fades, pane, start).filter(other_than(pane)), pane),
{
    let g = fades.filter(other_than(pane));
    let f = g.push((pane, start));
    assert(f[g.len() as int] == (pane, start));
    if e.0 == pane && f.contains(e) {
        let k = choose|k: int| 0 <= k < f.len() && f[k] == e;
        if k < g.len() {
            fades.lemma_filter_pred(other_than(pane), k);
        }
    }
    if e.0 != pane {
        if fades.contains(e) {
            let k = choose|k: int| 0 <= k < fades.len() && fades[k] == e;
            fades.lemma_filter_contains(other_than(pane), k);
            let j = choose|j: int| 0 <= j < g.len() && g[j] == e;
            assert(f[j] == e);
        }
        if f.contains(e) {
            let k = choose|k: int| 0 <= k < f.len() && f[k] == e;
            assert(k < g.len());
            assert(g[k] == e);
            fades.lemma_filter_contains_rev(other_than(pane), e);
        }
    }
    let h = f.filter(other_than(pane));
    if fading(h, pane) {
        let k = choose|k: int| 0 <= k < h.len() && (#[trigger] h[k]).0 == pane;
        f.lemma_filter_pred(other_than(pane), k);
    }
}

} // verus!
