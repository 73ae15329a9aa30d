use vstd::prelude::*;
use crate::boundary::InstanceModel;
use crate::boundary::FieldValueModel;
use crate::boundary::ScalarModel;
use crate::boundary::UnionValueModel;
use crate::boundary::field_updated;
use crate::boundary::is_one;
use crate::boundary::one_value;
use crate::boundary::maybe_value;
use crate::boundary::is_maybe;
use crate::boundary::stored_out;
use crate::boundary::out_slot_fits;
use crate::boundary::text_written;

verus! {

/// Law: a scalar write followed by a scalar read round-trips. After the
/// write of `v` (the state `record_with` leaves) the field holds `v`, and
/// the read (`record_get`) stores `v` itself through any destination slot
/// that is not a text buffer; this covers both by-value primitives and
/// complex values crossing by clone.
pub proof fn lemma_scalar_round_trip(
    inst: InstanceModel,
    field: int,
    v: ScalarModel,
    dest: ScalarModel,
)
    requires
        0 <= field < inst.fields.len(),
        out_slot_fits(v, dest),
        !(v is Text),
    ensures
        ({
            let written = field_updated(inst, field, FieldValueModel::One(v));
            is_one(written, field) && one_value(written, field) == v && stored_out(
                one_value(written, field),
                dest,
            ) == v
        }),
{
}

/// Law: a text write followed by a text read round-trips observationally.
/// After the write, the read copies the text into the caller's buffer, so
/// whenever the buffer's capacity suffices, the buffer's prefix is exactly
/// the written text, and the buffer's capacity never changes.
pub proof fn lemma_text_round_trip(
    inst: InstanceModel,
    field: int,
    text: Seq<u8>,
    buffer: Seq<u8>,
)
    requires
        0 <= field < inst.fields.len(),
        text.len() <= buffer.len(),
    ensures
        ({
            let written = field_updated(inst, field, FieldValueModel::One(ScalarModel::Text(text)));
            let stored = stored_out(one_value(written, field), ScalarModel::Text(buffer));
            stored matches ScalarModel::Text(b) && b.subrange(0, text.len() as int) == text
                && b.len() == buffer.len()
        }),
{
    let written = field_updated(inst, field, FieldValueModel::One(ScalarModel::Text(text)));
    let b = text_written(buffer, text);
    assert(b.subrange(0, text.len() as int) =~= text);
}

/// One step against a sequence field, as the generated interface allows:
/// an append (`push`), or a removal at an index (`remove`).
pub enum SeqOp {
    Push(ScalarModel),
    RemoveAt(int),
}

/// The sequence after one step: `push` appends; `remove` takes the element
/// out when the index is in range and — exactly as the generated removal
/// reports failure without mutating — leaves the sequence unchanged when it
/// is not.
pub open spec fn apply_seq_op(items: Seq<ScalarModel>, op: SeqOp) -> Seq<ScalarModel> {
    match op {
        SeqOp::Push(v) => items.push(v),
        SeqOp::RemoveAt(i) => if 0 <= i < items.len() {
            items.remove(i)
        } else {
            items
        },
    }
}

/// The sequence after an interleaving of steps, applied in order.
pub open spec fn apply_seq_ops(items: Seq<ScalarModel>, ops: Seq<SeqOp>) -> Seq<ScalarModel>
    decreases ops.len(),
{
    if ops.len() == 0 {
        items
    } else {
        apply_seq_op(apply_seq_ops(items, ops.drop_last()), ops.last())
    }
}

/// How many steps of an interleaving are appends.
pub open spec fn count_pushes(ops: Seq<SeqOp>) -> nat
    decreases ops.len(),
{
    if ops.len() == 0 {
        0
    } else {
        count_pushes(ops.drop_last()) + (if ops.last() is Push {
            1nat
        } else {
            0nat
        })
    }
}

/// How many removals of an interleaving succeed: those whose index is in
/// range of the sequence at the moment they run.
pub open spec fn count_successful_removes(items: Seq<ScalarModel>, ops: Seq<SeqOp>) -> nat
    decreases ops.len(),
{
    if ops.len() == 0 {
        0
    } else {
        let before = apply_seq_ops(items, ops.drop_last());
        count_successful_removes(items, ops.drop_last()) + (match ops.last() {
            SeqOp::RemoveAt(i) => if 0 <= i < before.len() {
                1nat
            } else {
                0nat
            },
            SeqOp::Push(_) => 0nat,
        })
    }
}

/// Law: for any interleaving of appends and removals, the final length is
/// the initial length plus the appends minus the successful removals; a
/// removal past the current length fails and never mutates the sequence.
pub proof fn lemma_sequence_length(items: Seq<ScalarModel>, ops: Seq<SeqOp>)
    ensures
        apply_seq_ops(items, ops).len() == items.len() + count_pushes(ops)
            - count_successful_removes(items, ops),
        count_successful_removes(items, ops) <= items.len() + count_pushes(ops),
    decreases ops.len(),
{
    if ops.len() == 0 {
    } else {
        lemma_sequence_length(items, ops.drop_last());
    }
}

/// Law: a removal at or past the current length leaves the sequence exactly
/// as it was.
pub proof fn lemma_remove_out_of_range_is_no_op(items: Seq<ScalarModel>, i: int)
    requires
        i < 0 || i >= items.len(),
    ensures
        apply_seq_op(items, SeqOp::RemoveAt(i)) == items,
{
}

/// Law: the optional protocol. After a `replace` of `v` (the state
/// `record_replace` leaves), a `take` yields `v` and leaves the field
/// empty (the state `record_take` leaves); on that state a second `take`
/// finds nothing, so it reports the empty-optional failure, and a read
/// succeeds without writing.
pub proof fn lemma_optional_take_after_replace(inst: InstanceModel, field: int, v: ScalarModel)
    requires
        0 <= field < inst.fields.len(),
    ensures
        ({
            let replaced = field_updated(inst, field, FieldValueModel::Maybe(Some(v)));
            let taken = field_updated(replaced, field, FieldValueModel::Maybe(None));
            is_maybe(replaced, field) && maybe_value(replaced, field) == Some(v) && is_maybe(
                taken,
                field,
            ) && maybe_value(taken, field) is None
        }),
{
}

/// Law: building a payload variant yields an instance whose payload reads
/// back as the payload; retagging to a payload-free variant discards the
/// payload. `union_as` pins its post-state without reference to the prior
/// state, and that state is the one `union_from` builds fresh, so after the
/// retag every later operation behaves as on a pure instance of the new
/// variant.
pub proof fn lemma_union_retag_discards_payload(from_tag: int, payload: ScalarModel, to_tag: int)
    ensures
        (UnionValueModel { tag: from_tag, payload: Some(payload) }).payload == Some(payload),
        (UnionValueModel { tag: to_tag, payload: None }).payload is None,
        (UnionValueModel { tag: to_tag, payload: None }).payload != Some(payload),
{
}

} // verus!
