//! The state that a text service shares between its key sink, its edit sessions and its timer.
//!
//! Edit sessions run late and out of order. So the outcome of a key is not handed to the session
//! that was asked for on its account: it goes into the slot of its document context, where it is
//! merged with what is still waiting there, and a session takes the whole slot of its own context.

use crate::text;
use vstd::prelude::*;
use vstd::string::*;
use windows::Win32::UI::TextServices::{ITfComposition, ITfContext};

verus! {

/// An update that waits for an edit session: text to commit, then the line to show.
pub struct UpdateView {
    pub commit: Option<Seq<char>>,
    pub preedit: Seq<char>,
}

/// The shared state in the abstract: the flags, the handles, the update that waits for each
/// document context, and the contexts for which one waits, the one that has waited longest first.
#[verifier::ext_equal]
pub struct SharedView {
    pub composition: Option<ITfComposition>,
    pub composing: bool,
    pub context_reported: bool,
    pub translating: bool,
    pub last_context: Option<ITfContext>,
    pub server_stale: bool,
    pub foreground: bool,
    pub updates: Map<usize, UpdateView>,
    pub waiting: Seq<usize>,
}

impl SharedView {
    /// Each context with an update waiting is listed once, and no other is.
    pub open spec fn consistent(self) -> bool {
        &&& self.waiting.no_duplicates()
        &&& forall|context: usize| #[trigger]
            self.waiting.contains(context) <==> self.updates.contains_key(context)
    }

    /// The state once an update is queued for `context`. A context that has none waiting lines up
    /// behind the others.
    pub open spec fn enqueued(
        self,
        context: usize,
        commit: Option<Seq<char>>,
        preedit: Seq<char>,
    ) -> SharedView {
        SharedView {
            updates: queued(self.updates, context, commit, preedit),
            waiting: if self.updates.contains_key(context) {
                self.waiting
            } else {
                self.waiting.push(context)
            },
            ..self
        }
    }

    /// The state once the update of `context` is gone. The other contexts keep theirs, in the order
    /// in which they wait.
    pub open spec fn dropped(self, context: usize) -> SharedView {
        SharedView {
            updates: self.updates.remove(context),
            waiting: without(self.waiting, context),
            ..self
        }
    }

    /// The state once composing has ended. The next composition reports its input field anew.
    pub open spec fn ended(self) -> SharedView {
        SharedView { composing: false, context_reported: false, translating: false, ..self }
    }

    /// The state once all that was being composed is forgotten.
    pub open spec fn forgotten(self) -> SharedView {
        SharedView {
            composition: None,
            last_context: None,
            updates: Map::empty(),
            waiting: Seq::empty(),
            ..self.ended()
        }
    }
}

/// The contexts other than `context`, in the same order.
pub open spec fn without(waiting: Seq<usize>, context: usize) -> Seq<usize> {
    waiting.filter(|c: usize| c != context)
}

/// Two texts to commit, the earlier one first.
pub open spec fn commits_joined(
    earlier: Option<Seq<char>>,
    later: Option<Seq<char>>,
) -> Option<Seq<char>> {
    match (earlier, later) {
        (Some(a), Some(b)) => Some(a + b),
        (Some(a), None) => Some(a),
        (None, b) => b,
    }
}

/// The waiting updates once one more is queued for `context`: what that context has waiting is
/// committed first, and the line to show is the new one.
pub open spec fn queued(
    updates: Map<usize, UpdateView>,
    context: usize,
    commit: Option<Seq<char>>,
    preedit: Seq<char>,
) -> Map<usize, UpdateView> {
    let earlier = if updates.contains_key(context) {
        updates[context].commit
    } else {
        None
    };
    updates.insert(context, UpdateView { commit: commits_joined(earlier, commit), preedit })
}

/// What is known of the connection to the server.
#[derive(Clone, Copy, Debug, PartialEq, Eq, Structural)]
pub enum ClientState {
    /// The connection is in use elsewhere.
    Busy,
    /// There is no connection.
    Disconnected,
    /// The connection can be used.
    Connected,
}

/// A request to the server.
#[derive(Clone, Copy, Debug, PartialEq, Eq, Structural)]
pub enum ClientRequest {
    /// Take the candidate window down.
    HideCandidates,
}

impl ClientState {
    /// The request that takes the candidate window down, where the connection can be used.
    pub open spec fn hiding(self) -> Option<ClientRequest> {
        if self is Connected {
            Some(ClientRequest::HideCandidates)
        } else {
            None
        }
    }
}

/// The slot of a document context.
struct Slot {
    context: usize,
    commit: Option<String>,
    preedit: String,
}

impl Slot {
    spec fn update(self) -> UpdateView {
        UpdateView { commit: text::text_view(self.commit), preedit: self.preedit@ }
    }
}

/// No two slots are for the same context.
spec fn distinct(slots: Seq<Slot>) -> bool {
    forall|i: int, j: int|
        0 <= i < j < slots.len() ==> (#[trigger] slots[i]).context != (#[trigger] slots[j]).context
}

/// The slot at `i` is for `context`.
spec fn holds(slots: Seq<Slot>, context: usize, i: int) -> bool {
    0 <= i < slots.len() && slots[i].context == context
}

/// The updates in the slots, by context.
spec fn updates_of(slots: Seq<Slot>) -> Map<usize, UpdateView> {
    Map::new(
        |context: usize| exists|i: int| holds(slots, context, i),
        |context: usize| slots[choose|i: int| holds(slots, context, i)].update(),
    )
}

/// The contexts of the slots, in order.
spec fn contexts_of(slots: Seq<Slot>) -> Seq<usize> {
    slots.map_values(|slot: Slot| slot.context)
}

/// To leave out a context that is listed once is to remove it where it stands.
proof fn lemma_without(waiting: Seq<usize>, context: usize)
    requires
        waiting.no_duplicates(),
    ensures
        !waiting.contains(context) ==> without(waiting, context) == waiting,
        forall|i: int|
            0 <= i < waiting.len() && #[trigger] waiting[i] == context ==> without(waiting, context)
                == waiting.remove(i),
    decreases waiting.len(),
{
    reveal(Seq::filter);
    if waiting.len() > 0 {
        let rest = waiting.drop_last();
        let last = waiting.last();
        lemma_without(rest, context);
        assert(rest.push(last) =~= waiting);
        assert forall|i: int| 0 <= i < rest.len() implies waiting.contains(#[trigger] rest[i]) by {
            assert(waiting[i] == rest[i]);
        }
        if last == context {
            assert(!rest.contains(context));
            assert(waiting.remove(waiting.len() - 1) =~= rest);
        }
        assert forall|i: int|
            0 <= i < waiting.len() && #[trigger] waiting[i] == context implies without(
            waiting,
            context,
        ) == waiting.remove(i) by {
            if i < rest.len() {
                assert(rest[i] == context);
                assert(rest.remove(i).push(last) =~= waiting.remove(i));
            }
        }
    }
}

/// To leave out the context that came last gives back the line before it came.
proof fn lemma_pushed_without(waiting: Seq<usize>, context: usize)
    requires
        waiting.no_duplicates(),
        !waiting.contains(context),
    ensures
        without(waiting.push(context), context) == waiting,
{
    reveal(Seq::filter);
    lemma_without(waiting, context);
    assert(waiting.push(context).drop_last() =~= waiting);
}

proof fn lemma_contexts(slots: Seq<Slot>)
    requires
        distinct(slots),
    ensures
        contexts_of(slots).no_duplicates(),
        forall|context: usize| #[trigger]
            contexts_of(slots).contains(context) <==> updates_of(slots).contains_key(context),
{
    let waiting = contexts_of(slots);
    assert forall|context: usize| #[trigger]
        waiting.contains(context) implies updates_of(slots).contains_key(context) by {
        let i = choose|i: int| 0 <= i < waiting.len() && waiting[i] == context;
        lemma_lookup(slots, i);
    }
    assert forall|context: usize| updates_of(slots).contains_key(
        context,
    ) implies #[trigger] waiting.contains(context) by {
        let i = choose|i: int| holds(slots, context, i);
        assert(waiting[i] == context);
    }
}

proof fn lemma_lookup(slots: Seq<Slot>, i: int)
    requires
        distinct(slots),
        0 <= i < slots.len(),
    ensures
        updates_of(slots).contains_key(slots[i].context),
        updates_of(slots)[slots[i].context] == slots[i].update(),
{
    let context = slots[i].context;
    assert(holds(slots, context, i));
    let j = choose|j: int| holds(slots, context, j);
    assert(holds(slots, context, j));
    assert(i == j);
}

proof fn lemma_absent(slots: Seq<Slot>, context: usize)
    requires
        forall|i: int| 0 <= i < slots.len() ==> (#[trigger] slots[i]).context != context,
    ensures
        !updates_of(slots).contains_key(context),
{
}

/// Two lists of slots hold the same updates if each slot of the one is in the other.
proof fn lemma_same_lookup(slots: Seq<Slot>, updates: Map<usize, UpdateView>)
    requires
        distinct(slots),
        forall|i: int|
            0 <= i < slots.len() ==> updates.contains_key((#[trigger] slots[i]).context)
                && updates[slots[i].context] == slots[i].update(),
        forall|context: usize| #[trigger]
            updates.contains_key(context) ==> exists|i: int| holds(slots, context, i),
    ensures
        updates_of(slots) == updates,
{
    let m = updates_of(slots);
    assert forall|context: usize| #[trigger] m.contains_key(context) implies updates.contains_key(
        context,
    ) && m[context] == updates[context] by {
        let i = choose|i: int| holds(slots, context, i);
        lemma_lookup(slots, i);
    }
    assert(m =~= updates);
}

/// The state shared by the parts of a text service.
pub struct Shared {
    composition: Option<ITfComposition>,
    composing: bool,
    context_reported: bool,
    translating: bool,
    last_context: Option<ITfContext>,
    server_stale: bool,
    foreground: bool,
    pending_update: Vec<Slot>,
}

impl View for Shared {
    type V = SharedView;

    closed spec fn view(&self) -> SharedView {
        SharedView {
            composition: self.composition,
            composing: self.composing,
            context_reported: self.context_reported,
            translating: self.translating,
            last_context: self.last_context,
            server_stale: self.server_stale,
            foreground: self.foreground,
            updates: updates_of(self.pending_update@),
            waiting: contexts_of(self.pending_update@),
        }
    }
}

impl Shared {
    /// Each document context has at most one slot.
    pub closed spec fn well_formed(self) -> bool {
        distinct(self.pending_update@)
    }

    /// The state of a service that has just been activated: nothing composed, nothing waiting.
    pub fn new() -> (s: Self)
        ensures
            s.well_formed(),
            s@ == (SharedView {
                composition: None,
                composing: false,
                context_reported: false,
                translating: false,
                last_context: None,
                server_stale: false,
                foreground: false,
                updates: Map::empty(),
                waiting: Seq::empty(),
            }),
    {
        let s = Shared {
            composition: None,
            composing: false,
            context_reported: false,
            translating: false,
            last_context: None,
            server_stale: false,
            foreground: false,
            pending_update: Vec::new(),
        };
        assert(updates_of(s.pending_update@) =~= Map::empty());
        assert(contexts_of(s.pending_update@) =~= Seq::empty());
        s
    }

    /// The place of the slot of `context`.
    fn position(&self, context: usize) -> (r: Option<usize>)
        requires
            self.well_formed(),
        ensures
            match r {
                Some(i) => holds(self.pending_update@, context, i as int)
                    && self@.updates.contains_key(context) && self@.updates[context]
                    == self.pending_update@[i as int].update(),
                None => !self@.updates.contains_key(context) && forall|i: int|
                    0 <= i < self.pending_update@.len() ==> (
                    #[trigger] self.pending_update@[i]).context != context,
            },
    {
        let mut i: usize = 0;
        while i < self.pending_update.len()
            invariant
                i <= self.pending_update.len(),
                self.well_formed(),
                forall|j: int|
                    0 <= j < i ==> (#[trigger] self.pending_update@[j]).context != context,
            decreases self.pending_update.len() - i,
        {
            if self.pending_update[i].context == context {
                proof {
                    lemma_lookup(self.pending_update@, i as int);
                }
                return Some(i);
            }
            i += 1;
        }
        proof {
            lemma_absent(self.pending_update@, context);
        }
        None
    }

    /// Queues an update for a document context, merged with what that context has waiting. Tells
    /// whether an edit session is to be asked for: one is on its way already where something was
    /// waiting.
    pub fn enqueue_update(
        &mut self,
        context: usize,
        commit: Option<String>,
        preedit: String,
    ) -> (fresh: bool)
        requires
            old(self).well_formed(),
        ensures
            final(self).well_formed(),
            fresh == !old(self)@.updates.contains_key(context),
            final(self)@ == old(self)@.enqueued(context, text::text_view(commit), preedit@),
    {
        let ghost before = self.pending_update@;
        let ghost target = queued(
            self@.updates,
            context,
            text::text_view(commit),
            preedit@,
        );
        match self.position(context) {
            Some(i) => {
                let slot = self.pending_update.remove(i);
                let merged = match (slot.commit, commit) {
                    (Some(a), Some(b)) => Some(a.concat(b.as_str())),
                    (Some(a), None) => Some(a),
                    (None, b) => b,
                };
                self.pending_update.insert(i, Slot { context, commit: merged, preedit });
                proof {
                    let after = self.pending_update@;
                    assert(after =~= before.update(i as int, after[i as int]));
                    assert(contexts_of(after) =~= contexts_of(before));
                    assert forall|j: int| 0 <= j < after.len() implies target.contains_key(
                        (#[trigger] after[j]).context,
                    ) && target[after[j].context] == after[j].update() by {
                        lemma_lookup(before, j);
                    }
                    assert forall|c: usize| #[trigger] target.contains_key(c) implies exists|
                        j: int,
                    | holds(after, c, j) by {
                        if c == context {
                            assert(holds(after, c, i as int));
                        } else {
                            let j = choose|j: int| holds(before, c, j);
                            assert(holds(after, c, j));
                        }
                    }
                    lemma_same_lookup(after, target);
                }
                false
            },
            None => {
                self.pending_update.push(Slot { context, commit, preedit });
                proof {
                    let after = self.pending_update@;
                    assert(contexts_of(after) =~= contexts_of(before).push(context));
                    assert forall|j: int| 0 <= j < after.len() implies target.contains_key(
                        (#[trigger] after[j]).context,
                    ) && target[after[j].context] == after[j].update() by {
                        if j < before.len() {
                            assert(after[j] == before[j]);
                            lemma_lookup(before, j);
                        }
                    }
                    assert forall|c: usize| #[trigger] target.contains_key(c) implies exists|
                        j: int,
                    | holds(after, c, j) by {
                        if c == context {
                            assert(holds(after, c, before.len() as int));
                        } else {
                            let j = choose|j: int| holds(before, c, j);
                            assert(holds(after, c, j));
                        }
                    }
                    lemma_same_lookup(after, target);
                }
                true
            },
        }
    }

    /// Takes the update that waits for a document context, if there is one.
    pub fn take_pending_update(&mut self, context: usize) -> (r: Option<(Option<String>, String)>)
        requires
            old(self).well_formed(),
        ensures
            final(self).well_formed(),
            match r {
                Some((commit, preedit)) => old(self)@.updates.contains_key(context) && old(
                    self,
                )@.updates[context] == (UpdateView {
                    commit: text::text_view(commit),
                    preedit: preedit@,
                }),
                None => !old(self)@.updates.contains_key(context),
            },
            final(self)@ == old(self)@.dropped(context),
    {
        let ghost before = self.pending_update@;
        let ghost target = self@.updates.remove(context);
        match self.position(context) {
            Some(i) => {
                let slot = self.pending_update.remove(i);
                proof {
                    let after = self.pending_update@;
                    lemma_contexts(before);
                    lemma_without(contexts_of(before), context);
                    assert(contexts_of(before)[i as int] == context);
                    assert(contexts_of(after) =~= contexts_of(before).remove(i as int));
                    assert forall|j: int| 0 <= j < after.len() implies target.contains_key(
                        (#[trigger] after[j]).context,
                    ) && target[after[j].context] == after[j].update() by {
                        let k = if j < i {
                            j
                        } else {
                            j + 1
                        };
                        assert(after[j] == before[k]);
                        lemma_lookup(before, k);
                    }
                    assert forall|c: usize| #[trigger] target.contains_key(c) implies exists|
                        j: int,
                    | holds(after, c, j) by {
                        let k = choose|k: int| holds(before, c, k);
                        assert(k != i);
                        let j = if k < i {
                            k
                        } else {
                            k - 1
                        };
                        assert(holds(after, c, j));
                    }
                    lemma_same_lookup(after, target);
                }
                Some((slot.commit, slot.preedit))
            },
            None => {
                assert(target =~= self@.updates);
                proof {
                    lemma_contexts(before);
                    lemma_without(contexts_of(before), context);
                }
                None
            },
        }
    }

    /// Drops the update that waits for a document context: the edit session could not be asked for.
    pub fn clear_pending_update(&mut self, context: usize)
        requires
            old(self).well_formed(),
        ensures
            final(self).well_formed(),
            final(self)@ == old(self)@.dropped(context),
    {
        self.take_pending_update(context);
    }

    /// Tells whether any document context has an update waiting.
    pub fn has_pending_update(&self) -> (r: bool)
        requires
            self.well_formed(),
        ensures
            r == (exists|context: usize| self@.updates.contains_key(context)),
    {
        let r = !self.pending_update.is_empty();
        proof {
            if r {
                lemma_lookup(self.pending_update@, 0);
                assert(self@.updates.contains_key(self.pending_update@[0].context));
            } else {
                assert forall|context: usize| !self@.updates.contains_key(context) by {
                    lemma_absent(self.pending_update@, context);
                }
            }
        }
        r
    }

    /// Tells whether the thread has the keyboard focus.
    pub fn foreground(&self) -> (r: bool)
        ensures
            r == self@.foreground,
    {
        self.foreground
    }

    /// Records whether the thread has the keyboard focus.
    pub fn set_foreground(&mut self, value: bool)
        requires
            old(self).well_formed(),
        ensures
            final(self).well_formed(),
            final(self)@ == (SharedView { foreground: value, ..old(self)@ }),
    {
        self.foreground = value;
    }

    /// The document context that the last key came with.
    pub fn last_context(&self) -> (r: Option<ITfContext>)
        ensures
            r == self@.last_context,
    {
        self.last_context.clone()
    }

    /// Records the document context that a key came with.
    pub fn set_last_context(&mut self, context: Option<ITfContext>)
        requires
            old(self).well_formed(),
        ensures
            final(self).well_formed(),
            final(self)@ == (SharedView { last_context: context, ..old(self)@ }),
    {
        self.last_context = context;
    }

    /// Tells whether the server still holds a composition that the application has ended, and
    /// forgets it.
    pub fn take_server_stale(&mut self) -> (r: bool)
        requires
            old(self).well_formed(),
        ensures
            final(self).well_formed(),
            r == old(self)@.server_stale,
            final(self)@ == (SharedView { server_stale: false, ..old(self)@ }),
    {
        let stale = self.server_stale;
        self.server_stale = false;
        stale
    }

    /// Tells whether the server is composing.
    pub fn composing(&self) -> (r: bool)
        ensures
            r == self@.composing,
    {
        self.composing
    }

    /// Records whether the server is composing. When it no longer is, the next composition reports
    /// its input field anew.
    pub fn set_composing(&mut self, value: bool)
        requires
            old(self).well_formed(),
        ensures
            final(self).well_formed(),
            final(self)@ == (SharedView {
                composing: value,
                context_reported: value && old(self)@.context_reported,
                ..old(self)@
            }),
    {
        self.composing = value;
        if !value {
            self.context_reported = false;
        }
    }

    /// Tells whether the input field of this composition has been reported.
    pub fn context_reported(&self) -> (r: bool)
        ensures
            r == self@.context_reported,
    {
        self.context_reported
    }

    /// Records whether the input field of this composition has been reported.
    pub fn set_context_reported(&mut self, value: bool)
        requires
            old(self).well_formed(),
        ensures
            final(self).well_formed(),
            final(self)@ == (SharedView { context_reported: value, ..old(self)@ }),
    {
        self.context_reported = value;
    }

    /// Tells whether a translation of selected text awaits the user's verdict.
    pub fn translating(&self) -> (r: bool)
        ensures
            r == self@.translating,
    {
        self.translating
    }

    /// Records whether a translation of selected text awaits the user's verdict.
    pub fn set_translating(&mut self, value: bool)
        requires
            old(self).well_formed(),
        ensures
            final(self).well_formed(),
            final(self)@ == (SharedView { translating: value, ..old(self)@ }),
    {
        self.translating = value;
    }

    /// The request that has the server take the candidate window down; none where the connection
    /// cannot be used.
    pub fn hide_candidates(&self, client: ClientState) -> (request: Option<ClientRequest>)
        ensures
            request == client.hiding(),
    {
        match client {
            ClientState::Connected => Some(ClientRequest::HideCandidates),
            _ => None,
        }
    }

    /// Tells whether a composition is open in a document.
    pub fn has_composition(&self) -> (r: bool)
        ensures
            r == (self@.composition is Some),
    {
        self.composition.is_some()
    }

    /// The composition that is open in a document.
    pub fn composition(&self) -> (r: Option<ITfComposition>)
        ensures
            r == self@.composition,
    {
        self.composition.clone()
    }

    /// Records the composition that is open in a document.
    pub fn set_composition(&mut self, composition: Option<ITfComposition>)
        requires
            old(self).well_formed(),
        ensures
            final(self).well_formed(),
            final(self)@ == (SharedView { composition, ..old(self)@ }),
    {
        self.composition = composition;
    }

    /// Hands over the composition that is open in a document.
    pub fn take_composition(&mut self) -> (r: Option<ITfComposition>)
        requires
            old(self).well_formed(),
        ensures
            final(self).well_formed(),
            r == old(self)@.composition,
            final(self)@ == (SharedView { composition: None, ..old(self)@ }),
    {
        self.composition.take()
    }

    /// Composing has ended: by the application, by a lost connection, or by committing on a lost
    /// focus. The candidate window is to go, and the next composition reports its input field anew.
    pub fn end_composing(&mut self, client: ClientState) -> (request: Option<ClientRequest>)
        requires
            old(self).well_formed(),
        ensures
            final(self).well_formed(),
            request == client.hiding(),
            final(self)@ == old(self)@.ended(),
    {
        self.composing = false;
        self.context_reported = false;
        self.translating = false;
        self.hide_candidates(client)
    }

    /// Forgets all that is being composed, without touching the document.
    pub fn reset(&mut self, client: ClientState) -> (request: Option<ClientRequest>)
        requires
            old(self).well_formed(),
        ensures
            final(self).well_formed(),
            request == client.hiding(),
            final(self)@ == old(self)@.forgotten(),
    {
        self.pending_update.clear();
        assert(updates_of(self.pending_update@) =~= Map::empty());
        assert(contexts_of(self.pending_update@) =~= Seq::empty());
        self.set_composition(None);
        self.set_last_context(None);
        self.end_composing(client)
    }

    /// The application has ended the composition: all is forgotten here, and the server is known to
    /// hold on to it still.
    pub fn terminated(&mut self, client: ClientState) -> (request: Option<ClientRequest>)
        requires
            old(self).well_formed(),
        ensures
            final(self).well_formed(),
            request == client.hiding(),
            final(self)@ == (SharedView { server_stale: true, ..old(self)@.forgotten() }),
    {
        let request = self.reset(client);
        self.server_stale = true;
        request
    }
}

/// The waiting updates once a series of updates is queued for `context`.
pub open spec fn queued_all(
    updates: Map<usize, UpdateView>,
    context: usize,
    more: Seq<UpdateView>,
) -> Map<usize, UpdateView>
    decreases more.len(),
{
    if more.len() == 0 {
        updates
    } else {
        queued(
            queued_all(updates, context, more.drop_last()),
            context,
            more.last().commit,
            more.last().preedit,
        )
    }
}

/// The texts that a series of updates commits, in order; none where no update commits any.
pub open spec fn all_commits(more: Seq<UpdateView>) -> Option<Seq<char>>
    decreases more.len(),
{
    if more.len() == 0 {
        None
    } else {
        commits_joined(all_commits(more.drop_last()), more.last().commit)
    }
}

/// However many keys come in before the edit session runs, the session finds their texts in the
/// order of the keys and the line of the last key, and no other document context is touched.
pub proof fn law_updates_merge_in_order(
    updates: Map<usize, UpdateView>,
    context: usize,
    more: Seq<UpdateView>,
)
    requires
        !updates.contains_key(context),
        more.len() > 0,
    ensures
        queued_all(updates, context, more) == updates.insert(
            context,
            UpdateView { commit: all_commits(more), preedit: more.last().preedit },
        ),
    decreases more.len(),
{
    let earlier = more.drop_last();
    if earlier.len() > 0 {
        law_updates_merge_in_order(updates, context, earlier);
    } else {
        assert(all_commits(earlier) is None);
        assert(queued_all(updates, context, earlier) == updates);
    }
    assert(queued_all(updates, context, more) =~= updates.insert(
        context,
        UpdateView { commit: all_commits(more), preedit: more.last().preedit },
    ));
}

/// Document contexts do not meet: updates for two of them can be queued in either order, and taking
/// or dropping the one's leaves the other's.
pub proof fn law_contexts_are_independent(
    updates: Map<usize, UpdateView>,
    a: usize,
    b: usize,
    for_a: UpdateView,
    for_b: UpdateView,
)
    requires
        a != b,
    ensures
        queued(queued(updates, a, for_a.commit, for_a.preedit), b, for_b.commit, for_b.preedit)
            == queued(
            queued(updates, b, for_b.commit, for_b.preedit),
            a,
            for_a.commit,
            for_a.preedit,
        ),
        queued(updates, a, for_a.commit, for_a.preedit).remove(b) == queued(
            updates.remove(b),
            a,
            for_a.commit,
            for_a.preedit,
        ),
        updates.remove(b).contains_key(a) == updates.contains_key(a),
        updates.contains_key(a) ==> updates.remove(b)[a] == updates[a],
{
    assert(queued(
        queued(updates, a, for_a.commit, for_a.preedit),
        b,
        for_b.commit,
        for_b.preedit,
    ) =~= queued(
        queued(updates, b, for_b.commit, for_b.preedit),
        a,
        for_a.commit,
        for_a.preedit,
    ));
    assert(queued(updates, a, for_a.commit, for_a.preedit).remove(b) =~= queued(
        updates.remove(b),
        a,
        for_a.commit,
        for_a.preedit,
    ));
}

/// The contexts with an update waiting are always listed in full and once each.
pub proof fn law_waiting_contexts_are_listed(s: Shared)
    requires
        s.well_formed(),
    ensures
        s@.consistent(),
{
    lemma_contexts(s.pending_update@);
}

/// Dropping the update of one context leaves nothing for it to take, so that its next update is
/// fresh; every other context keeps its update and its place in the order; and dropping again
/// changes nothing.
pub proof fn law_dropping_keeps_the_rest(s: SharedView, context: usize)
    requires
        s.consistent(),
    ensures
        s.dropped(context).consistent(),
        !s.dropped(context).updates.contains_key(context),
        s.dropped(context).waiting == without(s.waiting, context),
        forall|other: usize|
            other != context ==> {
                &&& #[trigger] s.dropped(context).updates.contains_key(other)
                    == s.updates.contains_key(other)
                &&& s.updates.contains_key(other) ==> s.dropped(context).updates[other]
                    == s.updates[other]
            },
        s.dropped(context).dropped(context) == s.dropped(context),
{
    let d = s.dropped(context);
    lemma_without(s.waiting, context);
    if s.waiting.contains(context) {
        let i = choose|i: int| 0 <= i < s.waiting.len() && s.waiting[i] == context;
        assert(s.waiting[i] == context);
        assert(d.waiting == s.waiting.remove(i));
        assert forall|other: usize| #[trigger]
            d.waiting.contains(other) <==> d.updates.contains_key(other) by {
            if d.waiting.contains(other) {
                let j = choose|j: int| 0 <= j < d.waiting.len() && d.waiting[j] == other;
                let k = if j < i {
                    j
                } else {
                    j + 1
                };
                assert(s.waiting[k] == other);
                assert(s.waiting.contains(other));
                assert(other != context);
            }
            if d.updates.contains_key(other) {
                assert(s.waiting.contains(other));
                let k = choose|k: int| 0 <= k < s.waiting.len() && s.waiting[k] == other;
                let j = if k < i {
                    k
                } else {
                    k - 1
                };
                assert(d.waiting[j] == other);
                assert(d.waiting.contains(other));
            }
        }
    } else {
        assert(d.waiting == s.waiting);
        assert(d.updates =~= s.updates);
    }
    assert(!d.waiting.contains(context));
    lemma_without(d.waiting, context);
    assert(d.updates.remove(context) =~= d.updates);
}

/// Something that happens to the waiting updates.
pub enum QueueStep {
    /// An update is queued for a context.
    Queue(usize, UpdateView),
    /// The update of a context is taken by its session, or dropped because there is none.
    Remove(usize),
    /// All is forgotten.
    Forget,
}

/// The waiting updates after `steps`, from none.
pub open spec fn updates_after(steps: Seq<QueueStep>) -> Map<usize, UpdateView>
    decreases steps.len(),
{
    if steps.len() == 0 {
        Map::empty()
    } else {
        let earlier = updates_after(steps.drop_last());
        match steps.last() {
            QueueStep::Queue(context, update) => queued(
                earlier,
                context,
                update.commit,
                update.preedit,
            ),
            QueueStep::Remove(context) => earlier.remove(context),
            QueueStep::Forget => Map::empty(),
        }
    }
}

/// The sessions asked for on account of `context` whose update has not been taken, dropped or
/// forgotten: one for each fresh update, less one for each update that went.
pub open spec fn sessions_open(steps: Seq<QueueStep>, context: usize) -> int
    decreases steps.len(),
{
    if steps.len() == 0 {
        0
    } else {
        let waiting = updates_after(steps.drop_last()).contains_key(context);
        let before = sessions_open(steps.drop_last(), context);
        match steps.last() {
            QueueStep::Queue(c, _) => if c == context && !waiting {
                before + 1
            } else {
                before
            },
            QueueStep::Remove(c) => if c == context && waiting {
                before - 1
            } else {
                before
            },
            QueueStep::Forget => if waiting {
                before - 1
            } else {
                before
            },
        }
    }
}

/// A document context has at most one session on its way, and has one exactly while an update waits
/// for it, whatever has happened so far.
pub proof fn law_one_session_per_context(steps: Seq<QueueStep>, context: usize)
    ensures
        sessions_open(steps, context) == (if updates_after(steps).contains_key(context) {
            1int
        } else {
            0int
        }),
    decreases steps.len(),
{
    if steps.len() > 0 {
        law_one_session_per_context(steps.drop_last(), context);
    }
}

/// Forgetting is final: nothing is composed or waiting afterwards, and forgetting again changes
/// nothing.
pub proof fn law_forgetting_is_complete(s: SharedView)
    ensures
        !s.forgotten().composing,
        !s.forgotten().translating,
        !s.forgotten().context_reported,
        s.forgotten().waiting.len() == 0,
        s.forgotten().composition is None,
        s.forgotten().last_context is None,
        forall|context: usize| !s.forgotten().updates.contains_key(context),
        s.forgotten().forgotten() == s.forgotten(),
{
}

/// The later text goes behind the earlier one: where `a` waits to be committed and `b` is queued,
/// `a + b` waits. An update without text leaves `a` waiting, and where no text waits the text queued
/// waits alone. The line to show is the one queued last.
pub proof fn law_later_text_goes_behind(
    s: SharedView,
    context: usize,
    a: Seq<char>,
    b: Seq<char>,
    commit: Option<Seq<char>>,
    preedit: Seq<char>,
)
    ensures
        s.updates.contains_key(context) && s.updates[context].commit == Some(a) ==> {
            &&& s.enqueued(context, Some(b), preedit).updates[context].commit == Some(a + b)
            &&& s.enqueued(context, None, preedit).updates[context].commit == Some(a)
        },
        s.updates.contains_key(context) && s.updates[context].commit is None ==> s.enqueued(
            context,
            commit,
            preedit,
        ).updates[context].commit == commit,
        !s.updates.contains_key(context) ==> s.enqueued(
            context,
            commit,
            preedit,
        ).updates[context].commit == commit,
        s.enqueued(context, commit, preedit).updates.contains_key(context),
        s.enqueued(context, commit, preedit).updates[context].preedit == preedit,
{
}

/// Queuing touches one context alone: the others keep their updates, and the contexts that wait keep
/// their order, with a context that had nothing waiting behind them all.
pub proof fn law_queuing_touches_one_context(
    s: SharedView,
    context: usize,
    commit: Option<Seq<char>>,
    preedit: Seq<char>,
    other: usize,
)
    requires
        other != context,
    ensures
        ({
            let t = s.enqueued(context, commit, preedit);
            &&& t.updates.contains_key(other) == s.updates.contains_key(other)
            &&& s.updates.contains_key(other) ==> t.updates[other] == s.updates[other]
            &&& s.updates.contains_key(context) ==> t.waiting == s.waiting
            &&& !s.updates.contains_key(context) ==> t.waiting == s.waiting + seq![context]
            &&& t.composition == s.composition
            &&& t.composing == s.composing
            &&& t.context_reported == s.context_reported
            &&& t.translating == s.translating
            &&& t.last_context == s.last_context
            &&& t.server_stale == s.server_stale
            &&& t.foreground == s.foreground
        }),
{
    assert(s.waiting.push(context) =~= s.waiting + seq![context]);
}

/// The state once a series of updates is queued for `context`.
pub open spec fn enqueued_all(
    s: SharedView,
    context: usize,
    more: Seq<UpdateView>,
) -> SharedView
    decreases more.len(),
{
    if more.len() == 0 {
        s
    } else {
        enqueued_all(s, context, more.drop_last()).enqueued(
            context,
            more.last().commit,
            more.last().preedit,
        )
    }
}

/// The texts of a series of updates, first to last; an update without text has none.
pub open spec fn texts(more: Seq<UpdateView>) -> Seq<Seq<char>>
    decreases more.len(),
{
    if more.len() == 0 {
        seq![]
    } else {
        match more.last().commit {
            Some(text) => texts(more.drop_last()).push(text),
            None => texts(more.drop_last()),
        }
    }
}

/// However many updates are queued for a context, what waits to be committed is all their texts run
/// together in the order in which they were queued, behind the text that waited before.
pub proof fn law_waiting_text_is_all_texts_in_order(
    s: SharedView,
    context: usize,
    waited: Seq<char>,
    more: Seq<UpdateView>,
)
    requires
        more.len() > 0,
    ensures
        ({
            let update = enqueued_all(s, context, more).updates[context];
            &&& enqueued_all(s, context, more).updates.contains_key(context)
            &&& update.preedit == more.last().preedit
            &&& s.updates.contains_key(context) && s.updates[context].commit == Some(waited)
                ==> update.commit == Some(waited + texts(more).flatten())
            &&& !s.updates.contains_key(context) || s.updates[context].commit is None
                ==> update.commit == (if texts(more).len() > 0 {
                Some(texts(more).flatten())
            } else {
                None
            })
        }),
    decreases more.len(),
{
    let fewer = more.drop_last();
    let state = enqueued_all(s, context, fewer);
    let none = Seq::<Seq<char>>::empty();
    assert(none.flatten() =~= Seq::<char>::empty());
    if fewer.len() > 0 {
        law_waiting_text_is_all_texts_in_order(s, context, waited, fewer);
    } else {
        assert(texts(fewer) =~= none);
        assert(waited + Seq::<char>::empty() =~= waited);
    }
    if let Some(text) = more.last().commit {
        texts(fewer).lemma_flatten_push(text);
        assert(waited + (texts(fewer).flatten() + text) =~= (waited + texts(fewer).flatten())
            + text);
        if texts(fewer).len() == 0 {
            assert(texts(fewer) =~= none);
            assert(Seq::<char>::empty() + text =~= text);
        }
    }
}

/// Taking or dropping the update of a context takes it out of the line where it stands and closes
/// the gap; a context that has none waiting leaves the line as it is. Nothing else changes.
pub proof fn law_dropping_closes_the_gap(
    s: SharedView,
    context: usize,
    ahead: Seq<usize>,
    behind: Seq<usize>,
)
    requires
        s.waiting.no_duplicates(),
    ensures
        ({
            let t = s.dropped(context);
            &&& s.waiting == ahead + seq![context] + behind ==> t.waiting == ahead + behind
            &&& !s.waiting.contains(context) ==> t.waiting == s.waiting
            &&& t.updates == s.updates.remove(context)
            &&& t.composition == s.composition
            &&& t.composing == s.composing
            &&& t.context_reported == s.context_reported
            &&& t.translating == s.translating
            &&& t.last_context == s.last_context
            &&& t.server_stale == s.server_stale
            &&& t.foreground == s.foreground
        }),
{
    lemma_without(s.waiting, context);
    if s.waiting == ahead + seq![context] + behind {
        let i = ahead.len() as int;
        assert(s.waiting[i] == context);
        assert(s.waiting.remove(i) =~= ahead + behind);
    }
}

/// What is queued for a context is what is then taken for it, once: an update queued where none
/// waited comes out as it went in, and the state is then as it was.
pub proof fn law_taking_undoes_queuing(
    s: SharedView,
    context: usize,
    commit: Option<Seq<char>>,
    preedit: Seq<char>,
)
    requires
        s.consistent(),
        !s.updates.contains_key(context),
    ensures
        s.enqueued(context, commit, preedit).updates[context] == (UpdateView { commit, preedit }),
        s.enqueued(context, commit, preedit).dropped(context) == s,
{
    let t = s.enqueued(context, commit, preedit);
    assert(!s.waiting.contains(context));
    lemma_pushed_without(s.waiting, context);
    assert(t.updates.remove(context) =~= s.updates);
    assert(t.dropped(context) =~= s);
}

/// The end of composing clears three flags and leaves the rest: the handles, what waits, the focus
/// and what is known of the server.
pub proof fn law_ending_leaves_the_rest(s: SharedView)
    ensures
        !s.ended().composing,
        !s.ended().context_reported,
        !s.ended().translating,
        s.ended().composition == s.composition,
        s.ended().last_context == s.last_context,
        s.ended().updates == s.updates,
        s.ended().waiting == s.waiting,
        s.ended().server_stale == s.server_stale,
        s.ended().foreground == s.foreground,
        s.forgotten().server_stale == s.server_stale,
        s.forgotten().foreground == s.foreground,
{
}

/// The server is asked to take the candidate window down exactly if the connection can be used.
pub proof fn law_only_a_connection_hides_candidates(client: ClientState)
    ensures
        client.hiding() == Some(ClientRequest::HideCandidates) <==> client
            == ClientState::Connected,
        client != ClientState::Connected ==> client.hiding() is None,
{
}

} // verus!
