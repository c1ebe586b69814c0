use vstd::prelude::*;

verus! {

/// One entity and the names of the component types attached to it.
pub struct EntityComponents {
    pub entity: u64,
    pub components: Vec<String>,
}

/// One line of the component dump: an entity's header, or one of its
/// component type names.
#[derive(Clone, Debug, PartialEq, Eq)]
pub enum DumpLine {
    Entity(u64),
    Component(String),
}

/// The block of lines for one entity: its header, then each of its
/// component names in the order given.
pub open spec fn block_of(e: EntityComponents) -> Seq<DumpLine> {
    seq![DumpLine::Entity(e.entity)] + e.components@.map_values(|s: String| DumpLine::Component(s))
}

/// The dump of a list of entities: one block per entity, in the order given.
pub open spec fn dump_of(es: Seq<EntityComponents>) -> Seq<DumpLine>
    decreases es.len(),
{
    if es.len() == 0 {
        Seq::empty()
    } else {
        dump_of(es.drop_last()) + block_of(es.last())
    }
}

/// The component dump: when the dump key was just pressed, one block per
/// entity listing exactly its component names; nothing otherwise.
pub fn inspect(just_pressed: bool, entries: &Vec<EntityComponents>) -> (r: Vec<DumpLine>)
    ensures
        !just_pressed ==> r@.len() == 0,
        just_pressed ==> r@ == dump_of(entries@),
{
    let mut out: Vec<DumpLine> = Vec::new();
    if !just_pressed {
        return out;
    }
    let mut i: usize = 0;
    while i < entries.len()
        invariant
            0 <= i <= entries@.len(),
            out@ == dump_of(entries@.take(i as int)),
        decreases entries@.len() - i,
    {
        let e = &entries[i];
        let ghost start = out@;
        out.push(DumpLine::Entity(e.entity));
        let mut j: usize = 0;
        while j < e.components.len()
            invariant
                0 <= j <= e.components@.len(),
                out@ == start + seq![DumpLine::Entity(e.entity)] + e.components@.take(
                    j as int,
                ).map_values(|s: String| DumpLine::Component(s)),
            decreases e.components@.len() - j,
        {
            let ghost before = out@;
            out.push(DumpLine::Component(e.components[j].clone()));
            proof {
                assert(e.components@.take(j + 1) =~= e.components@.take(j as int).push(
                    e.components@[j as int],
                ));
                assert(out@ =~= start + seq![DumpLine::Entity(e.entity)] + e.components@.take(
                    j + 1,
                ).map_values(|s: String| DumpLine::Component(s)));
            }
            j += 1;
        }
        proof {
            assert(e.components@.take(j as int) =~= e.components@);
            assert(entries@.take(i + 1).drop_last() =~= entries@.take(i as int));
            assert(out@ =~= dump_of(entries@.take(i + 1)));
        }
        i += 1;
    }
    assert(entries@.take(i as int) =~= entries@);
    out
}

pub open spec fn is_header(l: DumpLine) -> bool {
    l is Entity
}

/// The dump holds one header per entity, in the order given: the headers
/// of `dump_of(es)` are exactly the entities of `es`.
pub proof fn lemma_one_header_per_entity(es: Seq<EntityComponents>)
    ensures
        dump_of(es).filter(|l: DumpLine| is_header(l)) == es.map_values(
            |e: EntityComponents| DumpLine::Entity(e.entity),
        ),
    decreases es.len(),
{
    let pred = |l: DumpLine| is_header(l);
    let heads = |e: EntityComponents| DumpLine::Entity(e.entity);
    if es.len() == 0 {
        assert(dump_of(es).filter(pred) =~= Seq::<DumpLine>::empty());
        assert(es.map_values(heads) =~= Seq::<DumpLine>::empty());
    } else {
        let e = es.last();
        lemma_one_header_per_entity(es.drop_last());
        let names = e.components@.map_values(|s: String| DumpLine::Component(s));
        Seq::filter_distributes_over_add(dump_of(es.drop_last()), block_of(e), pred);
        Seq::filter_distributes_over_add(seq![DumpLine::Entity(e.entity)], names, pred);
        names.lemma_all_neg_filter_empty(pred);
        assert(seq![DumpLine::Entity(e.entity)].filter(pred) =~= seq![DumpLine::Entity(e.entity)])
            by {
            reveal(Seq::filter);
            assert(seq![DumpLine::Entity(e.entity)].drop_last() =~= Seq::<DumpLine>::empty());
        }
        assert(names.filter(pred) =~= Seq::<DumpLine>::empty());
        assert(es.map_values(heads) =~= es.drop_last().map_values(heads).push(heads(e)));
        assert(dump_of(es).filter(pred) =~= es.map_values(heads));
    }
}

/// The blocks of a list of entities, one per entity, in the order given.
pub open spec fn blocks_of(es: Seq<EntityComponents>) -> Seq<Seq<DumpLine>> {
    es.map_values(|e: EntityComponents| block_of(e))
}

/// The dump is the blocks of the entities laid end to end, and the block of
/// each entity is its header followed by exactly its component names.
pub proof fn lemma_dump_is_blocks(es: Seq<EntityComponents>)
    ensures
        dump_of(es) == blocks_of(es).flatten(),
        forall|i: int|
            0 <= i < es.len() ==> #[trigger] blocks_of(es)[i] == seq![DumpLine::Entity(es[i].entity)]
                + es[i].components@.map_values(|s: String| DumpLine::Component(s)),
    decreases es.len(),
{
    if es.len() > 0 {
        lemma_dump_is_blocks(es.drop_last());
        assert(blocks_of(es) =~= blocks_of(es.drop_last()).push(block_of(es.last())));
        blocks_of(es.drop_last()).lemma_flatten_push(block_of(es.last()));
    } else {
        assert(blocks_of(es) =~= Seq::<Seq<DumpLine>>::empty());
    }
}

/// The order in which entities are enumerated does not change what is
/// dumped: two lists holding the same entities give the same blocks, each
/// as often.
pub proof fn lemma_blocks_ignore_order(es1: Seq<EntityComponents>, es2: Seq<EntityComponents>)
    requires
        es1.to_multiset() == es2.to_multiset(),
    ensures
        blocks_of(es1).to_multiset() == blocks_of(es2).to_multiset(),
    decreases es1.len(),
{
    broadcast use vstd::seq_lib::to_multiset_build, vstd::seq_lib::to_multiset_remove,
        vstd::seq_lib::to_multiset_contains, vstd::seq_lib::to_multiset_len;

    if es1.len() == 0 {
        assert(es2.to_multiset().len() == 0);
        assert(es2.len() == 0);
        assert(blocks_of(es1) =~= blocks_of(es2));
    } else {
        let x = es1.last();
        let rest1 = es1.drop_last();
        assert(es1 =~= rest1.push(x));
        assert(es1.to_multiset().contains(x));
        assert(es2.contains(x));
        let j = choose|j: int| 0 <= j < es2.len() && es2[j] == x;
        let rest2 = es2.remove(j);
        assert(rest1.to_multiset() =~= es1.to_multiset().remove(x));
        assert(rest2.to_multiset() =~= es2.to_multiset().remove(x));
        lemma_blocks_ignore_order(rest1, rest2);
        let b = block_of(x);
        assert(blocks_of(es1) =~= blocks_of(rest1).push(b));
        assert(blocks_of(rest2) =~= blocks_of(es2).remove(j));
        assert(blocks_of(es2)[j] == b);
        assert(blocks_of(es2).to_multiset().contains(b)) by {
            assert(blocks_of(es2).contains(b));
        }
        assert(blocks_of(rest2).to_multiset() =~= blocks_of(es2).to_multiset().remove(b));
        assert(blocks_of(es1).to_multiset() =~= blocks_of(rest1).to_multiset().insert(b));
        assert(blocks_of(es2).to_multiset() =~= blocks_of(es2).to_multiset().remove(b).insert(b));
    }
}

} // verus!
