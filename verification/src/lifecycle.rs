use vstd::prelude::*;

verus! {

/// The two kinds of entity that the engine keeps a registry of.
#[derive(Clone, Copy, Debug, PartialEq, Eq, Structural)]
pub enum Family {
    Model,
    Gui,
}

/// What one queued lifecycle message does to the registry of one family.
#[derive(Clone, Copy, Debug, PartialEq, Eq, Structural)]
pub enum Effect {
    /// The entity `new_id` was cloned from `old_id` and asks to be registered.
    Create { old_id: u64, new_id: u64 },
    /// The handle of `id` was dropped; its entry is to be removed.
    Retire { id: u64 },
    /// The message is about the other family.
    Nothing,
}

impl Effect {
    pub open spec fn creates(self, id: u64) -> bool {
        self matches Effect::Create { new_id, .. } && new_id == id
    }

    pub open spec fn retires(self, id: u64) -> bool {
        self matches Effect::Retire { id: x } && x == id
    }

    /// Whether the effect names `id` as the source of a clone or as the
    /// entity to retire.
    pub open spec fn reads(self, id: u64) -> bool {
        ||| self matches Effect::Create { old_id, .. } && old_id == id
        ||| self.retires(id)
    }
}

/// Whether some effect at a position before `end` registers `id`.
pub open spec fn created_before(effects: Seq<Effect>, end: int, id: u64) -> bool {
    exists|k: int| 0 <= k < end && k < effects.len() && (#[trigger] effects[k]).creates(id)
}

/// Whether a retirement of `id` is waiting in the queue.
pub open spec fn retiring(effects: Seq<Effect>, id: u64) -> bool {
    exists|k: int| 0 <= k < effects.len() && (#[trigger] effects[k]).retires(id)
}

/// The entities whose handle is alive: those that have a data record and
/// no retirement waiting.
pub open spec fn live(effects: Seq<Effect>, cells: Set<u64>) -> Set<u64> {
    Set::new(|id: u64| cells.contains(id) && !retiring(effects, id))
}

/// The registry after one effect.
pub open spec fn step(registered: Set<u64>, effect: Effect) -> Set<u64> {
    match effect {
        Effect::Create { new_id, .. } => registered.insert(new_id),
        Effect::Retire { id } => registered.remove(id),
        Effect::Nothing => registered,
    }
}

/// The data records that remain after one effect: a retirement releases
/// the record of the retired entity.
pub open spec fn step_cells(cells: Set<u64>, effect: Effect) -> Set<u64> {
    match effect {
        Effect::Retire { id } => cells.remove(id),
        _ => cells,
    }
}

/// The agreement between a registry, the data records and the queue of
/// effects that have not been applied yet.
///
/// `registered` holds the identities in the registry, `cells` those with a
/// data record, and every identity handed out so far is below `bound`.
pub open spec fn consistent(
    effects: Seq<Effect>,
    registered: Set<u64>,
    cells: Set<u64>,
    bound: int,
) -> bool {
    // every registered entity has a data record, and identities are below the bound
    &&& forall|id: u64| #[trigger] registered.contains(id) ==> cells.contains(id)
    &&& forall|id: u64| #[trigger] cells.contains(id) ==> id < bound
    // every data record is registered or waits to be
    &&& forall|id: u64| #[trigger]
        cells.contains(id) ==> registered.contains(id) || created_before(
            effects,
            effects.len() as int,
            id,
        )
    // a clone names a source that is registered by then, and a new identity
    &&& forall|i: int|
        0 <= i < effects.len() ==> (#[trigger] effects[i] matches Effect::Create {
            old_id,
            new_id,
        } ==> {
            &&& cells.contains(old_id)
            &&& cells.contains(new_id)
            &&& !registered.contains(new_id)
            &&& registered.contains(old_id) || created_before(effects, i, old_id)
        })
    // no identity is registered twice
    &&& forall|i: int, j: int|
        0 <= i < j < effects.len() ==> (#[trigger] effects[i] matches Effect::Create {
            new_id,
            ..
        } ==> !(#[trigger] effects[j]).creates(new_id))
    // a retirement names an entity that is registered by then
    &&& forall|i: int|
        0 <= i < effects.len() ==> (#[trigger] effects[i] matches Effect::Retire { id } ==> {
            &&& cells.contains(id)
            &&& registered.contains(id) || created_before(effects, i, id)
        })
    // nothing reads an entity after its retirement
    &&& forall|i: int, j: int|
        0 <= i < j < effects.len() ==> (#[trigger] effects[i] matches Effect::Retire { id } ==> !(
        #[trigger] effects[j]).reads(id))
}

/// Applying the first effect of a consistent queue leaves the rest consistent,
/// and the first effect finds what it needs in the registry.
pub proof fn lemma_apply_first(
    effects: Seq<Effect>,
    registered: Set<u64>,
    cells: Set<u64>,
    bound: int,
)
    requires
        consistent(effects, registered, cells, bound),
        effects.len() > 0,
    ensures
        effects[0] matches Effect::Create { old_id, new_id } ==> registered.contains(old_id)
            && !registered.contains(new_id) && cells.contains(new_id),
        effects[0] matches Effect::Retire { id } ==> registered.contains(id),
        consistent(
            effects.skip(1),
            step(registered, effects[0]),
            step_cells(cells, effects[0]),
            bound,
        ),
        live(effects.skip(1), step_cells(cells, effects[0])) == live(effects, cells),
{
    let rest = effects.skip(1);
    let first = effects[0];
    let reg2 = step(registered, first);
    let cells2 = step_cells(cells, first);
    assert forall|i: int| 0 <= i < rest.len() implies #[trigger] rest[i] == effects[i + 1] by {}
    // what the first effect needs
    if let Effect::Create { old_id, new_id } = first {
        assert(!created_before(effects, 0, old_id));
    }
    if let Effect::Retire { id } = first {
        assert(!created_before(effects, 0, id));
    }
    // every data record is registered or waits to be
    assert forall|id: u64| #[trigger] cells2.contains(id) implies reg2.contains(id)
        || created_before(rest, rest.len() as int, id) by {
        if !reg2.contains(id) {
            assert(!registered.contains(id));
            let k = choose|k: int|
                0 <= k < effects.len() && (#[trigger] effects[k]).creates(id);
            assert(k > 0);
            assert(rest[k - 1].creates(id));
        }
    }
    assert forall|i: int| 0 <= i < rest.len() implies (#[trigger] rest[i] matches Effect::Create {
        old_id,
        new_id,
    } ==> {
        &&& cells2.contains(old_id)
        &&& cells2.contains(new_id)
        &&& !reg2.contains(new_id)
        &&& reg2.contains(old_id) || created_before(rest, i, old_id)
    }) by {
        if let Effect::Create { old_id, new_id } = rest[i] {
            assert(effects[i + 1] == rest[i]);
            if first.retires(old_id) {
                assert(effects[i + 1].reads(old_id));
            }
            if !reg2.contains(old_id) {
                if registered.contains(old_id) {
                    assert(first.retires(old_id));
                } else {
                    let k = choose|k: int|
                        0 <= k < i + 1 && k < effects.len() && (#[trigger] effects[k]).creates(
                            old_id,
                        );
                    assert(k > 0);
                    assert(rest[k - 1].creates(old_id));
                }
            }
        }
    }
    assert forall|i: int, j: int| 0 <= i < j < rest.len() implies (#[trigger] rest[i] matches Effect::Create {
        new_id,
        ..
    } ==> !(#[trigger] rest[j]).creates(new_id)) by {
        assert(effects[i + 1] == rest[i]);
        assert(effects[j + 1] == rest[j]);
    }
    assert forall|i: int| 0 <= i < rest.len() implies (#[trigger] rest[i] matches Effect::Retire {
        id,
    } ==> {
        &&& cells2.contains(id)
        &&& reg2.contains(id) || created_before(rest, i, id)
    }) by {
        if let Effect::Retire { id } = rest[i] {
            assert(effects[i + 1] == rest[i]);
            if first.retires(id) {
                assert(effects[i + 1].reads(id));
            }
            if !reg2.contains(id) {
                if registered.contains(id) {
                    assert(first.retires(id));
                } else {
                    let k = choose|k: int|
                        0 <= k < i + 1 && k < effects.len() && (#[trigger] effects[k]).creates(id);
                    assert(k > 0);
                    assert(rest[k - 1].creates(id));
                }
            }
        }
    }
    assert forall|i: int, j: int| 0 <= i < j < rest.len() implies (#[trigger] rest[i] matches Effect::Retire {
        id,
    } ==> !(#[trigger] rest[j]).reads(id)) by {
        assert(effects[i + 1] == rest[i]);
        assert(effects[j + 1] == rest[j]);
    }
    // the live handles are the same
    assert forall|id: u64| live(rest, cells2).contains(id) == live(effects, cells).contains(
        id,
    ) by {
        if retiring(rest, id) {
            let k = choose|k: int| 0 <= k < rest.len() && (#[trigger] rest[k]).retires(id);
            assert(effects[k + 1].retires(id));
        }
        if retiring(effects, id) {
            let k = choose|k: int| 0 <= k < effects.len() && (#[trigger] effects[k]).retires(id);
            if k > 0 {
                assert(rest[k - 1].retires(id));
            }
        }
        if first.retires(id) {
            assert(effects[0].retires(id));
        }
    }
    assert(live(rest, cells2) =~= live(effects, cells));
}

/// With nothing left to apply, the registry holds exactly the entities whose
/// handle is alive.
pub proof fn lemma_drained(registered: Set<u64>, cells: Set<u64>, bound: int)
    requires
        consistent(Seq::<Effect>::empty(), registered, cells, bound),
    ensures
        registered == cells,
        registered == live(Seq::<Effect>::empty(), cells),
{
    let none = Seq::<Effect>::empty();
    assert forall|id: u64| cells.contains(id) implies registered.contains(id) by {
        assert(!created_before(none, 0, id));
    }
    assert(registered =~= cells);
    assert(live(none, cells) =~= cells);
}

/// A message about the other family may join the queue.
pub proof fn lemma_push_nothing(
    effects: Seq<Effect>,
    registered: Set<u64>,
    cells: Set<u64>,
    bound: int,
)
    requires
        consistent(effects, registered, cells, bound),
    ensures
        consistent(effects.push(Effect::Nothing), registered, cells, bound),
        live(effects.push(Effect::Nothing), cells) == live(effects, cells),
{
    let more = effects.push(Effect::Nothing);
    assert forall|i: int| 0 <= i < effects.len() implies #[trigger] more[i] == effects[i] by {}
    lemma_push_keeps_created(effects, Effect::Nothing);
    assert forall|id: u64| live(more, cells).contains(id) == live(effects, cells).contains(
        id,
    ) by {
        lemma_push_retiring(effects, Effect::Nothing, id);
    }
    assert(live(more, cells) =~= live(effects, cells));
}

/// What was created before a position in a queue is still created before
/// it when the queue grows at its end.
pub proof fn lemma_push_keeps_created(effects: Seq<Effect>, last: Effect)
    ensures
        forall|end: int, id: u64| #[trigger]
            created_before(effects, end, id) ==> created_before(effects.push(last), end, id),
        forall|end: int, id: u64|
            end <= effects.len() && #[trigger] created_before(effects.push(last), end, id)
                ==> created_before(effects, end, id),
{
    let more = effects.push(last);
    assert forall|end: int, id: u64| #[trigger]
        created_before(effects, end, id) implies created_before(more, end, id) by {
        let k = choose|k: int| 0 <= k < end && k < effects.len() && (#[trigger] effects[k]).creates(id);
        assert(more[k].creates(id));
    }
    assert forall|end: int, id: u64|
        end <= effects.len() && #[trigger] created_before(more, end, id) implies created_before(
        effects,
        end,
        id,
    ) by {
        let k = choose|k: int| 0 <= k < end && k < more.len() && (#[trigger] more[k]).creates(id);
        assert(effects[k].creates(id));
    }
}

/// A retirement waits in the grown queue if it waited before or is the
/// effect that was added.
pub proof fn lemma_push_retiring(effects: Seq<Effect>, last: Effect, id: u64)
    ensures
        retiring(effects.push(last), id) <==> retiring(effects, id) || last.retires(id),
{
    let more = effects.push(last);
    if retiring(effects, id) {
        let k = choose|k: int| 0 <= k < effects.len() && (#[trigger] effects[k]).retires(id);
        assert(more[k].retires(id));
    }
    if last.retires(id) {
        assert(more[effects.len() as int].retires(id));
    }
    if retiring(more, id) {
        let k = choose|k: int| 0 <= k < more.len() && (#[trigger] more[k]).retires(id);
        if k < effects.len() {
            assert(effects[k].retires(id));
        }
    }
}

/// Cloning a live entity: the clone gets the next identity and a data
/// record, and its registration joins the queue.
pub proof fn lemma_push_create(
    effects: Seq<Effect>,
    registered: Set<u64>,
    cells: Set<u64>,
    bound: int,
    old_id: u64,
    new_id: u64,
)
    requires
        consistent(effects, registered, cells, bound),
        live(effects, cells).contains(old_id),
        new_id == bound,
    ensures
        consistent(
            effects.push(Effect::Create { old_id, new_id }),
            registered,
            cells.insert(new_id),
            bound + 1,
        ),
        live(effects.push(Effect::Create { old_id, new_id }), cells.insert(new_id)) == live(
            effects,
            cells,
        ).insert(new_id),
{
    let last = Effect::Create { old_id, new_id };
    let more = effects.push(last);
    let cells2 = cells.insert(new_id);
    let n = effects.len() as int;
    assert forall|i: int| 0 <= i < n implies #[trigger] more[i] == effects[i] by {}
    assert(more[n] == last);
    lemma_push_keeps_created(effects, last);
    assert(!cells.contains(new_id));
    assert forall|id: u64| #[trigger] cells2.contains(id) implies registered.contains(id)
        || created_before(more, more.len() as int, id) by {
        if id == new_id {
            assert(more[n].creates(id));
        } else if !registered.contains(id) {
            assert(created_before(effects, n, id));
            assert(created_before(more, n, id));
            let k = choose|k: int| 0 <= k < n && k < more.len() && (#[trigger] more[k]).creates(id);
            assert(more[k].creates(id));
        }
    }
    assert forall|i: int| 0 <= i < more.len() implies (#[trigger] more[i] matches Effect::Create {
        old_id: o,
        new_id: c,
    } ==> {
        &&& cells2.contains(o)
        &&& cells2.contains(c)
        &&& !registered.contains(c)
        &&& registered.contains(o) || created_before(more, i, o)
    }) by {
        if i < n {
            assert(more[i] == effects[i]);
        } else {
            if !registered.contains(old_id) {
                assert(created_before(effects, n, old_id));
            }
        }
    }
    assert forall|i: int, j: int| 0 <= i < j < more.len() implies (#[trigger] more[i] matches Effect::Create {
        new_id: c,
        ..
    } ==> !(#[trigger] more[j]).creates(c)) by {
        assert(more[i] == effects[i]);
        if j < n {
            assert(more[j] == effects[j]);
        }
    }
    assert forall|i: int| 0 <= i < more.len() implies (#[trigger] more[i] matches Effect::Retire {
        id,
    } ==> {
        &&& cells2.contains(id)
        &&& registered.contains(id) || created_before(more, i, id)
    }) by {
        if i < n {
            assert(more[i] == effects[i]);
        }
    }
    assert forall|i: int, j: int| 0 <= i < j < more.len() implies (#[trigger] more[i] matches Effect::Retire {
        id,
    } ==> !(#[trigger] more[j]).reads(id)) by {
        assert(more[i] == effects[i]);
        if j < n {
            assert(more[j] == effects[j]);
        } else if let Effect::Retire { id } = effects[i] {
            assert(effects[i].retires(id));
            assert(retiring(effects, id));
        }
    }
    assert forall|id: u64| live(more, cells2).contains(id) == live(effects, cells).insert(
        new_id,
    ).contains(id) by {
        lemma_push_retiring(effects, last, id);
        if id == new_id && retiring(effects, id) {
            let k = choose|k: int| 0 <= k < effects.len() && (#[trigger] effects[k]).retires(id);
            assert(cells.contains(id));
        }
    }
    assert(live(more, cells2) =~= live(effects, cells).insert(new_id));
}

/// Dropping the handle of a live entity: its retirement joins the queue.
pub proof fn lemma_push_retire(
    effects: Seq<Effect>,
    registered: Set<u64>,
    cells: Set<u64>,
    bound: int,
    id: u64,
)
    requires
        consistent(effects, registered, cells, bound),
        live(effects, cells).contains(id),
    ensures
        consistent(effects.push(Effect::Retire { id }), registered, cells, bound),
        live(effects.push(Effect::Retire { id }), cells) == live(effects, cells).remove(id),
{
    let last = Effect::Retire { id };
    let more = effects.push(last);
    let n = effects.len() as int;
    assert forall|i: int| 0 <= i < n implies #[trigger] more[i] == effects[i] by {}
    assert(more[n] == last);
    lemma_push_keeps_created(effects, last);
    assert forall|x: u64| #[trigger] cells.contains(x) implies registered.contains(x)
        || created_before(more, more.len() as int, x) by {
        if !registered.contains(x) {
            assert(created_before(effects, n, x));
            assert(created_before(more, n, x));
            let k = choose|k: int| 0 <= k < n && k < more.len() && (#[trigger] more[k]).creates(x);
            assert(more[k].creates(x));
        }
    }
    assert forall|i: int| 0 <= i < more.len() implies (#[trigger] more[i] matches Effect::Create {
        old_id: o,
        new_id: c,
    } ==> {
        &&& cells.contains(o)
        &&& cells.contains(c)
        &&& !registered.contains(c)
        &&& registered.contains(o) || created_before(more, i, o)
    }) by {
        if i < n {
            assert(more[i] == effects[i]);
        }
    }
    assert forall|i: int, j: int| 0 <= i < j < more.len() implies (#[trigger] more[i] matches Effect::Create {
        new_id: c,
        ..
    } ==> !(#[trigger] more[j]).creates(c)) by {
        assert(more[i] == effects[i]);
        if j < n {
            assert(more[j] == effects[j]);
        }
    }
    assert forall|i: int| 0 <= i < more.len() implies (#[trigger] more[i] matches Effect::Retire {
        id: x,
    } ==> {
        &&& cells.contains(x)
        &&& registered.contains(x) || created_before(more, i, x)
    }) by {
        if i < n {
            assert(more[i] == effects[i]);
        } else {
            if !registered.contains(id) {
                assert(created_before(effects, n, id));
            }
        }
    }
    assert forall|i: int, j: int| 0 <= i < j < more.len() implies (#[trigger] more[i] matches Effect::Retire {
        id: x,
    } ==> !(#[trigger] more[j]).reads(x)) by {
        assert(more[i] == effects[i]);
        if j < n {
            assert(more[j] == effects[j]);
        } else if let Effect::Retire { id: x } = effects[i] {
            assert(effects[i].retires(x));
            assert(retiring(effects, x));
        }
    }
    assert forall|x: u64| live(more, cells).contains(x) == live(effects, cells).remove(
        id,
    ).contains(x) by {
        lemma_push_retiring(effects, last, x);
    }
    assert(live(more, cells) =~= live(effects, cells).remove(id));
}

/// Constructing an entity: it gets the next identity, a data record and its
/// registry entry at once, without a message.
pub proof fn lemma_construct(
    effects: Seq<Effect>,
    registered: Set<u64>,
    cells: Set<u64>,
    bound: int,
    new_id: u64,
)
    requires
        consistent(effects, registered, cells, bound),
        new_id == bound,
    ensures
        consistent(effects, registered.insert(new_id), cells.insert(new_id), bound + 1),
        live(effects, cells.insert(new_id)) == live(effects, cells).insert(new_id),
{
    let reg2 = registered.insert(new_id);
    let cells2 = cells.insert(new_id);
    assert(!cells.contains(new_id));
    assert forall|i: int| 0 <= i < effects.len() implies (#[trigger] effects[i] matches Effect::Create {
        old_id: o,
        new_id: c,
    } ==> {
        &&& cells2.contains(o)
        &&& cells2.contains(c)
        &&& !reg2.contains(c)
        &&& reg2.contains(o) || created_before(effects, i, o)
    }) by {}
    assert forall|id: u64| live(effects, cells2).contains(id) == live(effects, cells).insert(
        new_id,
    ).contains(id) by {
        if id == new_id && retiring(effects, id) {
            let k = choose|k: int| 0 <= k < effects.len() && (#[trigger] effects[k]).retires(id);
            assert(cells.contains(id));
        }
    }
    assert(live(effects, cells2) =~= live(effects, cells).insert(new_id));
}

} // verus!
