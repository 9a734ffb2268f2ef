//! How skip rules decide about an item, and how skipped items leave a list.
use crate::items::{FfiItem, MapInput};
use crate::rules::{Skip, SkipModel};
use vstd::prelude::*;

verus! {

/// Every rule up to the first one that skips `item` can be called on it.
pub open spec fn skip_ready(rules: Seq<SkipModel>, item: MapInput<'static>) -> bool {
    forall|i: int|
        0 <= i < rules.len() && spared_before(rules, item, i) ==> (#[trigger] rules[i]).takes(item)
}

/// The first `n` rules may all leave `item` alone.
pub open spec fn spared_before(rules: Seq<SkipModel>, item: MapInput<'static>, n: int) -> bool {
    forall|i: int| 0 <= i < n ==> (#[trigger] rules[i]).may_return(item, false)
}

/// Asked in order until one of them skips `item`, the rules may come to the answer `skipped`.
pub open spec fn skip_answer(
    rules: Seq<SkipModel>,
    item: MapInput<'static>,
    skipped: bool,
) -> bool {
    if skipped {
        exists|i: int|
            0 <= i < rules.len() && (#[trigger] rules[i]).may_return(item, true) && spared_before(
                rules,
                item,
                i,
            )
    } else {
        spared_before(rules, item, rules.len() as int)
    }
}

/// The models of a list of rules.
pub open spec fn skip_models(rules: Seq<Skip>) -> Seq<SkipModel> {
    rules.map_values(|rule: Skip| rule.model())
}

/// The items whose mark is `mark`, in order.
pub open spec fn select<T>(items: Seq<T>, marks: Seq<bool>, mark: bool) -> Seq<T>
    decreases items.len(),
{
    if items.len() == 0 {
        Seq::empty()
    } else {
        let rest = select(items.drop_last(), marks.drop_last(), mark);
        if marks.last() == mark {
            rest.push(items.last())
        } else {
            rest
        }
    }
}

/// Every item can be put to the rules.
pub open spec fn all_ready<T: FfiItem>(rules: Seq<SkipModel>, items: Seq<T>) -> bool {
    forall|i: int| 0 <= i < items.len() ==> skip_ready(rules, (#[trigger] items[i]).as_input())
}

/// `marks` says of each item whether the rules skip it.
pub open spec fn marks_answer<T: FfiItem>(
    rules: Seq<SkipModel>,
    items: Seq<T>,
    marks: Seq<bool>,
) -> bool {
    &&& marks.len() == items.len()
    &&& forall|i: int|
        0 <= i < items.len() ==> skip_answer(
            rules,
            (#[trigger] items[i]).as_input(),
            marks[i],
        )
}

/// The line that reports a skipped item.
pub open spec fn skip_line(label: Seq<char>, name: Seq<char>) -> Seq<char> {
    "Skipping "@ + label + " \""@ + name + "\""@
}

/// The lines that report skipped items, in order.
pub open spec fn skip_lines<T: FfiItem>(label: Seq<char>, skipped: Seq<T>) -> Seq<Seq<char>> {
    skipped.map_values(|item: T| skip_line(label, item.name()))
}

/// The texts of a list of strings.
pub open spec fn texts(lines: Seq<String>) -> Seq<Seq<char>> {
    lines.map_values(|line: String| line@)
}

/// Filtering `items` by the rules, as `marks` tells, leaves `kept`, and gives a line for each
/// skipped item if `verbose`.
pub open spec fn list_outcome<T: FfiItem>(
    rules: Seq<SkipModel>,
    items: Seq<T>,
    marks: Seq<bool>,
    kept: Seq<T>,
    lines: Seq<Seq<char>>,
    label: Seq<char>,
    verbose: bool,
) -> bool {
    &&& marks_answer(rules, items, marks)
    &&& kept == select(items, marks, false)
    &&& lines == if verbose {
        skip_lines(label, select(items, marks, true))
    } else {
        Seq::empty()
    }
}

/// Asks the rules in order, until one skips `item`.
pub fn is_skipped(rules: &Vec<Skip>, item: &MapInput<'_>) -> (r: bool)
    requires
        skip_ready(skip_models(rules@), *item),
    ensures
        skip_answer(skip_models(rules@), *item, r),
{
    let ghost models = skip_models(rules@);
    for i in 0..rules.len()
        invariant
            models == skip_models(rules@),
            skip_ready(models, *item),
            spared_before(models, *item, i as int),
    {
        assert(models[i as int] == rules@[i as int].model());
        if rules[i].applies(item) {
            return true;
        }
    }
    false
}

/// The line that reports a skipped item.
pub fn report_line(label: &str, name: &str) -> (r: String)
    ensures
        r@ == skip_line(label@, name@),
{
    let mut line = "Skipping ".to_string();
    line.append(label);
    line.append(" \"");
    line.append(name);
    line.append("\"");
    line
}

/// Takes the items that the rules skip out of `items`. Gives the items that stay, in order, and
/// the lines that report the others, if `verbose`.
pub fn filter_items<T: FfiItem>(
    rules: &Vec<Skip>,
    items: Vec<T>,
    label: &str,
    verbose: bool,
) -> (r: (Vec<T>, Vec<String>))
    requires
        all_ready(skip_models(rules@), items@),
    ensures
        exists|marks: Seq<bool>| #[trigger]
            list_outcome(
                skip_models(rules@),
                items@,
                marks,
                r.0@,
                texts(r.1@),
                label@,
                verbose,
            ),
{
    let mut kept: Vec<T> = Vec::new();
    let mut lines: Vec<String> = Vec::new();
    let ghost all = items@;
    let ghost models = skip_models(rules@);
    let ghost mut marks: Seq<bool> = Seq::empty();
    assert(texts(lines@) == skip_lines::<T>(label@, Seq::empty()));
    assert(texts(lines@) == Seq::<Seq<char>>::empty());
    for item in it: items
        invariant
            models == skip_models(rules@),
            it.seq() == all,
            all_ready(models, all),
            list_outcome(
                models,
                all.take(it.index() as int),
                marks,
                kept@,
                texts(lines@),
                label@,
                verbose,
            ),
    {
        let ghost done = all.take(it.index() as int);
        let ghost next = all.take(it.index() + 1);
        let ghost before = texts(lines@);
        assert(item == all[it.index() as int]);
        assert(next.drop_last() == done && next.last() == item);
        let skipped = is_skipped(rules, &item.input());
        if skipped {
            if verbose {
                lines.push(report_line(label, item.item_name()));
                assert(texts(lines@) == before.push(skip_line(label@, item.name())));
            }
        } else {
            kept.push(item);
        }
        proof {
            let longer = marks.push(skipped);
            assert(longer.drop_last() == marks);
            assert forall|i: int| 0 <= i < next.len() implies skip_answer(
                models,
                (#[trigger] next[i]).as_input(),
                longer[i],
            ) by {
                if i < done.len() {
                    assert(next[i] == done[i]);
                }
            }
            let reported = select(done, marks, true);
            assert(skip_lines(label@, reported.push(next.last())) == skip_lines(label@, reported).push(
                skip_line(label@, next.last().name()),
            ));
            assert(select(next, longer, true) == if skipped {
                reported.push(next.last())
            } else {
                reported
            });
            marks = longer;
        }
    }
    assert(all.take(all.len() as int) == all);
    let ghost said = texts(lines@);
    let r = (kept, lines);
    assert(texts(r.1@) == said);
    assert(list_outcome(models, all, marks, r.0@, texts(r.1@), label@, verbose));
    r
}

} // verus!
