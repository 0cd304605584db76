use vstd::prelude::*;
use crate::expansion::{Error, Expansion, ExpansionRequest};
use crate::template::{project_for, template_lib, template_test, MacroType};

verus! {

/// The library source and the test source of one kind.
pub struct Sources {
    pub src_code: Vec<u8>,
    pub test_code: Vec<u8>,
}

impl View for Sources {
    type V = (Seq<u8>, Seq<u8>);

    open spec fn view(&self) -> (Seq<u8>, Seq<u8>) {
        (self.src_code@, self.test_code@)
    }
}

fn copy_bytes(v: &Vec<u8>) -> (r: Vec<u8>)
    ensures
        r@ == v@,
{
    let r = v.clone();
    assert(r@ =~= v@);
    r
}

impl Sources {
    pub fn copy(&self) -> (r: Sources)
        ensures
            r@ == self@,
    {
        Sources { src_code: copy_bytes(&self.src_code), test_code: copy_bytes(&self.test_code) }
    }
}

/// One pair of sources for each kind.
pub struct Stash {
    pub attribute: Sources,
    pub declarative: Sources,
    pub derive: Sources,
    pub function: Sources,
}

impl Stash {
    pub open spec fn get(&self, kind: MacroType) -> (Seq<u8>, Seq<u8>) {
        match kind {
            MacroType::Attribute => self.attribute@,
            MacroType::Declarative => self.declarative@,
            MacroType::Derive => self.derive@,
            MacroType::Function => self.function@,
        }
    }

    fn fresh_sources(kind: MacroType) -> (r: Sources)
        ensures
            r@ == (template_lib(kind), template_test(kind)),
    {
        let (src_code, test_code) = project_for(kind).make_new();
        Sources { src_code, test_code }
    }

    /// The template sources of every kind, newline-normalized: what a freshly
    /// provisioned workspace holds.
    pub fn fresh() -> (r: Stash)
        ensures
            forall|k: MacroType| #[trigger] r.get(k) == (template_lib(k), template_test(k)),
    {
        Stash {
            attribute: Self::fresh_sources(MacroType::Attribute),
            declarative: Self::fresh_sources(MacroType::Declarative),
            derive: Self::fresh_sources(MacroType::Derive),
            function: Self::fresh_sources(MacroType::Function),
        }
    }

    /// A copy of the sources of `kind`.
    pub fn load(&self, kind: MacroType) -> (r: Sources)
        ensures
            r@ == self.get(kind),
    {
        match kind {
            MacroType::Attribute => self.attribute.copy(),
            MacroType::Declarative => self.declarative.copy(),
            MacroType::Derive => self.derive.copy(),
            MacroType::Function => self.function.copy(),
        }
    }

    /// Replaces the sources of `kind`, and only those.
    pub fn store(&mut self, kind: MacroType, sources: Sources)
        ensures
            forall|k: MacroType|
                #[trigger] final(self).get(k) == if k == kind {
                    sources@
                } else {
                    old(self).get(k)
                },
    {
        match kind {
            MacroType::Attribute => self.attribute = sources,
            MacroType::Declarative => self.declarative = sources,
            MacroType::Derive => self.derive = sources,
            MacroType::Function => self.function = sources,
        }
    }
}

/// The abstract state of a session.
pub struct SessionView {
    /// The kind being edited; `None` while the landing page is shown.
    pub selected: Option<MacroType>,
    /// The library and test sources of every kind, as last edited.
    pub sources: Map<MacroType, (Seq<u8>, Seq<u8>)>,
    /// The expanded code shown beside the selected kind.
    pub expansion: Seq<u8>,
    /// The toolchain's diagnostics shown beside the selected kind.
    pub errors: Seq<u8>,
    /// An expansion request is in flight.
    pub pending: bool,
    /// The session has been closed and its workspaces handed over for removal.
    pub closed: bool,
}

impl SessionView {
    /// Navigating to the kind already selected changes nothing. Navigating to another
    /// kind clears the expansion and diagnostics; navigating to the landing page keeps
    /// them. No kind's sources change either way.
    pub open spec fn select(self, kind: Option<MacroType>) -> SessionView {
        if kind == self.selected {
            self
        } else if kind is Some {
            SessionView { selected: kind, expansion: Seq::empty(), errors: Seq::empty(), ..self }
        } else {
            SessionView { selected: kind, ..self }
        }
    }

    /// The selected kind's sources go back to its template; expansion and diagnostics
    /// are cleared. Without a selected kind nothing changes.
    pub open spec fn request_new(self) -> SessionView {
        match self.selected {
            Some(k) => SessionView {
                sources: self.sources.insert(k, (template_lib(k), template_test(k))),
                expansion: Seq::empty(),
                errors: Seq::empty(),
                ..self
            },
            None => self,
        }
    }

    pub open spec fn edit_library(self, text: Seq<u8>) -> SessionView {
        match self.selected {
            Some(k) => SessionView { sources: self.sources.insert(k, (text, self.sources[k].1)), ..self },
            None => self,
        }
    }

    pub open spec fn edit_test(self, text: Seq<u8>) -> SessionView {
        match self.selected {
            Some(k) => SessionView { sources: self.sources.insert(k, (self.sources[k].0, text)), ..self },
            None => self,
        }
    }

    /// An expansion may start only for a selected kind, and only while none is in flight.
    pub open spec fn can_expand(self) -> bool {
        self.selected is Some && !self.pending
    }

    pub open spec fn begin_expand(self) -> SessionView {
        if self.can_expand() {
            SessionView { pending: true, ..self }
        } else {
            self
        }
    }

    /// The request is no longer in flight. Its result is shown only if its kind is still
    /// the selected one: expanded code replaces both panes, a toolchain failure replaces
    /// the diagnostics alone, an I/O failure replaces nothing.
    pub open spec fn complete_expand(self, kind: MacroType, result: Result<Expansion, Error>) -> SessionView {
        let idle = SessionView { pending: false, ..self };
        if self.selected != Some(kind) {
            idle
        } else {
            match result {
                Ok(e) => SessionView { expansion: e.expanded@, errors: e.diagnostics@, ..idle },
                Err(Error::CargoFailed(d)) => SessionView { errors: d@, ..idle },
                Err(_) => idle,
            }
        }
    }

    pub open spec fn close(self) -> SessionView {
        SessionView { closed: true, ..self }
    }
}

/// The single mutable record of the user's interaction.
pub struct Session {
    src_code: Vec<u8>,
    test_code: Vec<u8>,
    expansion: Vec<u8>,
    errors: Vec<u8>,
    macro_type: Option<MacroType>,
    thinking: bool,
    closed: bool,
    stash: Stash,
}

fn same_selection(a: Option<MacroType>, b: Option<MacroType>) -> (r: bool)
    ensures
        r == (a == b),
{
    match (a, b) {
        (None, None) => true,
        (Some(x), Some(y)) => x == y,
        _ => false,
    }
}

impl View for Session {
    type V = SessionView;

    closed spec fn view(&self) -> SessionView {
        SessionView {
            selected: self.macro_type,
            sources: Map::new(|k: MacroType| true, |k: MacroType| self.sources_of(k)),
            expansion: self.expansion@,
            errors: self.errors@,
            pending: self.thinking,
            closed: self.closed,
        }
    }
}

impl Session {
    /// The live buffers hold the selected kind's sources; the stash holds the others'.
    spec fn sources_of(&self, kind: MacroType) -> (Seq<u8>, Seq<u8>) {
        if self.macro_type == Some(kind) {
            (self.src_code@, self.test_code@)
        } else {
            self.stash.get(kind)
        }
    }

    /// A session on the landing page whose kinds start from `seeds`: what each
    /// workspace held when it was provisioned.
    pub fn new(seeds: Stash) -> (s: Session)
        ensures
            s@.selected is None,
            s@.sources == Map::new(|k: MacroType| true, |k: MacroType| seeds.get(k)),
            s@.expansion.len() == 0,
            s@.errors.len() == 0,
            !s@.pending,
            !s@.closed,
    {
        let s = Session {
            src_code: Vec::new(),
            test_code: Vec::new(),
            expansion: Vec::new(),
            errors: Vec::new(),
            macro_type: None,
            thinking: false,
            closed: false,
            stash: seeds,
        };
        assert(s@.sources =~= Map::new(|k: MacroType| true, |k: MacroType| s.stash.get(k)));
        s
    }

    pub fn select(&mut self, kind: Option<MacroType>)
        ensures
            final(self)@ == old(self)@.select(kind),
    {
        if !same_selection(kind, self.macro_type) {
            if let Some(current) = self.macro_type {
                let live = Sources { src_code: copy_bytes(&self.src_code), test_code: copy_bytes(&self.test_code) };
                self.stash.store(current, live);
            }
            self.macro_type = kind;
            if let Some(k) = kind {
                let loaded = self.stash.load(k);
                self.src_code = loaded.src_code;
                self.test_code = loaded.test_code;
                self.expansion = Vec::new();
                self.errors = Vec::new();
            }
            assert(self@.sources =~= old(self)@.sources);
        }
        assert(self@ == old(self)@.select(kind)) by {
            assert(self@.expansion =~= old(self)@.select(kind).expansion);
            assert(self@.errors =~= old(self)@.select(kind).errors);
        }
    }
    /// Replaces the selected kind's library source with `text`.
    pub fn edit_library(&mut self, text: Vec<u8>)
        ensures
            final(self)@ == old(self)@.edit_library(text@),
    {
        if self.macro_type.is_some() {
            self.src_code = text;
            assert(self@.sources =~= old(self)@.edit_library(text@).sources);
        }
    }

    /// Replaces the selected kind's test source with `text`.
    pub fn edit_test(&mut self, text: Vec<u8>)
        ensures
            final(self)@ == old(self)@.edit_test(text@),
    {
        if self.macro_type.is_some() {
            self.test_code = text;
            assert(self@.sources =~= old(self)@.edit_test(text@).sources);
        }
    }

    /// Puts the selected kind's sources back to its template and clears the expansion
    /// and diagnostics.
    pub fn request_new(&mut self)
        ensures
            final(self)@ == old(self)@.request_new(),
    {
        if let Some(k) = self.macro_type {
            let (src_code, test_code) = project_for(k).make_new();
            self.src_code = src_code;
            self.test_code = test_code;
            self.expansion = Vec::new();
            self.errors = Vec::new();
            assert(self@.sources =~= old(self)@.request_new().sources);
            assert(self@.expansion =~= old(self)@.request_new().expansion);
            assert(self@.errors =~= old(self)@.request_new().errors);
        }
    }

    /// Starts an expansion of the selected kind and hands back a snapshot of its
    /// sources; refuses, with `None`, when no kind is selected or one is in flight.
    pub fn begin_expand(&mut self) -> (r: Option<ExpansionRequest>)
        ensures
            final(self)@ == old(self)@.begin_expand(),
            r is Some <==> old(self)@.can_expand(),
            r matches Some(req) ==> old(self)@.selected == Some(req.kind) && (req.src_code@,
                req.test_code@) == old(self)@.sources[req.kind],
    {
        if self.thinking {
            return None;
        }
        match self.macro_type {
            None => None,
            Some(kind) => {
                self.thinking = true;
                assert(self@.sources =~= old(self)@.sources);
                Some(
                    ExpansionRequest {
                        kind,
                        src_code: copy_bytes(&self.src_code),
                        test_code: copy_bytes(&self.test_code),
                    },
                )
            },
        }
    }

    /// Takes in the result of the request made for `kind`.
    pub fn complete_expand(&mut self, kind: MacroType, result: Result<Expansion, Error>)
        ensures
            final(self)@ == old(self)@.complete_expand(kind, result),
    {
        let ghost before = result;
        self.thinking = false;
        if same_selection(Some(kind), self.macro_type) {
            match result {
                Ok(e) => {
                    self.expansion = e.expanded;
                    self.errors = e.diagnostics;
                },
                Err(Error::CargoFailed(d)) => {
                    self.errors = d;
                },
                Err(_) => {},
            }
        }
        assert(self@.sources =~= old(self)@.complete_expand(kind, before).sources);
    }

    /// Marks the session closed. Returns `true` the first time only: the workspaces are
    /// to be removed then, and never again.
    pub fn close(&mut self) -> (teardown: bool)
        ensures
            teardown == !old(self)@.closed,
            final(self)@ == old(self)@.close(),
    {
        let teardown = !self.closed;
        self.closed = true;
        assert(self@.sources =~= old(self)@.sources);
        teardown
    }

    pub fn selected(&self) -> (r: Option<MacroType>)
        ensures
            r == self@.selected,
    {
        self.macro_type
    }

    pub fn is_pending(&self) -> (r: bool)
        ensures
            r == self@.pending,
    {
        self.thinking
    }

    /// The library source of the selected kind.
    pub fn src_code(&self) -> (r: &[u8])
        ensures
            self@.selected matches Some(k) ==> r@ == self@.sources[k].0,
    {
        self.src_code.as_slice()
    }

    /// The test source of the selected kind.
    pub fn test_code(&self) -> (r: &[u8])
        ensures
            self@.selected matches Some(k) ==> r@ == self@.sources[k].1,
    {
        self.test_code.as_slice()
    }

    pub fn expansion(&self) -> (r: &[u8])
        ensures
            r@ == self@.expansion,
    {
        self.expansion.as_slice()
    }

    pub fn errors(&self) -> (r: &[u8])
        ensures
            r@ == self@.errors,
    {
        self.errors.as_slice()
    }
}

/// Whatever was edited before, asking for a new project while a kind is selected gives
/// that kind exactly its newline-normalized template sources and empties the expansion
/// and diagnostics.
pub proof fn lemma_new_restores_template(v: SessionView, kind: MacroType)
    requires
        v.selected == Some(kind),
    ensures
        v.request_new().selected == Some(kind),
        v.request_new().sources[kind] == (template_lib(kind), template_test(kind)),
        v.request_new().expansion.len() == 0,
        v.request_new().errors.len() == 0,
{
}

/// Navigating to the same place a second time changes nothing.
pub proof fn lemma_select_idempotent(v: SessionView, kind: Option<MacroType>)
    ensures
        v.select(kind).select(kind) == v.select(kind),
{
}

/// Leaving a kind for another place and coming back finds that kind's sources, and every
/// other kind's, as they were when it was left.
pub proof fn lemma_select_round_trip(v: SessionView, k1: MacroType, k2: Option<MacroType>)
    requires
        v.selected == Some(k1),
    ensures
        v.select(k2).select(Some(k1)).selected == Some(k1),
        v.select(k2).select(Some(k1)).sources == v.sources,
        v.select(k2).select(Some(k1)).sources[k1] == v.sources[k1],
{
}

/// While an expansion is in flight a second one is refused and the state stays as it is;
/// once one has started, another cannot start until it completes.
pub proof fn lemma_single_pending(v: SessionView)
    ensures
        v.pending ==> !v.can_expand() && v.begin_expand() == v,
        v.can_expand() ==> v.begin_expand().pending && !v.begin_expand().can_expand(),
{
}

/// A closed session stays closed, and closing it again changes nothing: the workspaces
/// are removed on the first close alone.
pub proof fn lemma_close_once(v: SessionView)
    ensures
        v.close().closed,
        v.close().close() == v.close(),
{
}

} // verus!
