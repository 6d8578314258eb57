//! Emoji records as a Mastodon-compatible custom-emoji API reports them, and
//! the visibility filter that is applied before rendering.

use vstd::prelude::*;

verus! {

/// One custom emoji as the remote instance reports it. `visible_in_picker`
/// is optional in the wire format; an absent value is treated as visible.
#[derive(Debug, Clone, PartialEq, Eq)]
pub struct EmojiRecord {
    pub shortcode: String,
    pub url: String,
    pub static_url: String,
    pub visible_in_picker: Option<bool>,
}

/// A record is shown in the default view unless the instance explicitly
/// marked it as hidden from the emoji picker.
pub open spec fn record_visible(e: EmojiRecord) -> bool {
    e.visible_in_picker != Some(false)
}

/// The visibility test, as a value that `Seq::filter` can take.
pub open spec fn visibility_pred() -> spec_fn(EmojiRecord) -> bool {
    |e: EmojiRecord| record_visible(e)
}

/// The record list the handler returns: the input untouched when `show_all`
/// is set, otherwise only the visible records, in their original order.
pub open spec fn filtered(records: Seq<EmojiRecord>, show_all: bool) -> Seq<EmojiRecord> {
    if show_all {
        records
    } else {
        records.filter(visibility_pred())
    }
}

/// Apply the visibility filter: keep the list verbatim when `show_all` is
/// set, otherwise drop every record that is marked hidden and keep the rest
/// in their original order.
pub fn filter_records(records: Vec<EmojiRecord>, show_all: bool) -> (r: Vec<EmojiRecord>)
    ensures
        r@ == filtered(records@, show_all),
{
    if show_all {
        records
    } else {
        let mut rest = records;
        let ghost orig = rest@;
        let mut out: Vec<EmojiRecord> = Vec::new();
        proof {
            reveal(Seq::filter);
            assert(orig.take(0) =~= Seq::<EmojiRecord>::empty());
            assert(out@ == filtered(orig.take(0), false));
        }
        while rest.len() > 0
            invariant
                rest@.len() <= orig.len(),
                rest@ == orig.skip(orig.len() - rest@.len()),
                out@ == filtered(orig.take(orig.len() - rest@.len()), false),
            decreases rest.len(),
        {
            let ghost k: int = orig.len() - rest@.len();
            let e = rest.remove(0);
            proof {
                broadcast use Seq::lemma_filter_push;

                let q = visibility_pred();
                assert(e == orig.skip(k)[0]);
                assert(rest@ =~= orig.skip(k + 1));
                assert(orig.take(k + 1) =~= orig.take(k).push(e));
                assert(orig.take(k).push(e).filter(q) == filtered(orig.take(k + 1), false));
            }
            let keep = match e.visible_in_picker {
                Some(false) => false,
                _ => true,
            };
            proof {
                assert(keep == visibility_pred()(e));
            }
            if keep {
                out.push(e);
            }
        }
        proof {
            assert(orig.take(orig.len() as int) =~= orig);
        }
        out
    }
}

/// When the default filter is applied (`show_all` false), no hidden record
/// survives, every visible record of the input is kept, and nothing that was
/// not in the input appears.
pub proof fn lemma_hidden_records_dropped(records: Seq<EmojiRecord>)
    ensures
        forall|i: int|
            0 <= i < filtered(records, false).len() ==> record_visible(
                #[trigger] filtered(records, false)[i],
            ),
        forall|i: int|
            0 <= i < records.len() && record_visible(records[i]) ==> filtered(
                records,
                false,
            ).contains(#[trigger] records[i]),
        forall|e: EmojiRecord| filtered(records, false).contains(e) ==> records.contains(e),
{
    let pred = visibility_pred();
    assert forall|i: int| 0 <= i < filtered(records, false).len() implies record_visible(
        filtered(records, false)[i],
    ) by {
        records.lemma_filter_pred(pred, i);
    }
    assert forall|i: int|
        0 <= i < records.len() && record_visible(records[i]) implies filtered(
        records,
        false,
    ).contains(records[i]) by {
        records.lemma_filter_contains(pred, i);
    }
    assert forall|e: EmojiRecord| filtered(records, false).contains(e) implies records.contains(
        e,
    ) by {
        records.lemma_filter_contains_rev(pred, e);
    }
}

/// When every record of the input is visible, the default filter keeps the
/// whole list verbatim.
pub proof fn lemma_all_visible_kept(records: Seq<EmojiRecord>)
    requires
        forall|i: int| 0 <= i < records.len() ==> record_visible(#[trigger] records[i]),
    ensures
        filtered(records, false) == records,
    decreases records.len(),
{
    reveal(Seq::filter);
    if records.len() > 0 {
        lemma_all_visible_kept(records.drop_last());
        assert(record_visible(records.last()));
        assert(records.drop_last().push(records.last()) =~= records);
    }
}

/// Position law: a visible record survives the default filter and lands at
/// the index given by the number of visible records before it, so the output
/// is the visible records of the input, one for one.
pub proof fn lemma_visible_record_position(records: Seq<EmojiRecord>, i: int)
    requires
        0 <= i < records.len(),
        record_visible(records[i]),
    ensures
        filtered(records.take(i), false).len() < filtered(records, false).len(),
        filtered(records, false)[filtered(records.take(i), false).len() as int] == records[i],
    decreases records.len(),
{
    broadcast use Seq::lemma_filter_push;

    let pred = visibility_pred();
    let last = records.last();
    let butlast = records.drop_last();
    assert(butlast.push(last) =~= records);
    assert(butlast.push(last).filter(pred) == records.filter(pred));
    if i == records.len() - 1 {
        assert(records.take(i) =~= butlast);
    } else {
        lemma_visible_record_position(butlast, i);
        assert(records.take(i) =~= butlast.take(i));
    }
}

/// Order law: the default filter keeps visible records in their original
/// relative order — of two visible records, the earlier one lands at the
/// smaller output index.
pub proof fn lemma_order_preserved(records: Seq<EmojiRecord>, i: int, j: int)
    requires
        0 <= i < j < records.len(),
        record_visible(records[i]),
        record_visible(records[j]),
    ensures
        filtered(records.take(i), false).len() < filtered(records.take(j), false).len(),
{
    broadcast use Seq::lemma_filter_push;
    broadcast use Seq::lemma_filter_len_push;

    let pred = visibility_pred();
    assert(records.take(i + 1) =~= records.take(i).push(records[i]));
    assert(records.take(i).push(records[i]).filter(pred).len() == records.take(i).filter(
        pred,
    ).len() + 1);
    assert(records.take(i + 1).is_prefix_of(records.take(j)));
    records.take(i + 1).lemma_filter_monotone(records.take(j), pred);
}

/// With `show_all` set, filtering is the identity: the output list is the
/// input list verbatim, order and membership preserved.
pub proof fn lemma_show_all_verbatim(records: Seq<EmojiRecord>)
    ensures
        filtered(records, true) == records,
{
}

} // verus!
