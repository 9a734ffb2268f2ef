//! What holds of the library as a whole.
use crate::generation::{Action, Event, GenerationModel, Stage, TestSide};
use crate::generator::{
    filter_outcome, filter_ready, kind_outcome, marks_items, optional_text, report_lines,
    select_items, GeneratorModel, SkipMarks,
};
use crate::items::{
    Const, FfiItem, FfiItemsModel, Field, ItemKind, MapInput, Parameter, Static, Struct, Type,
    VolatileItemKind,
};
use crate::naming::{default_name, name_answer, rename_answer, unnamed_before};
use crate::outside::{joined_path, path_with_extension, syntax_tree};
use crate::rules::{
    alias_skip, const_rename, const_skip, field_rename, field_skip, field_volatile,
    fn_arg_volatile, fn_rename, fn_return_volatile, fn_skip, static_skip, static_volatile,
    struct_skip, struct_type_rename, type_rename, union_type_rename, ArrayArgModel, RenameModel,
    SkipModel, VolatileModel,
};
use crate::skipping::{
    all_ready, marks_answer, select, skip_answer, skip_ready, spared_before, texts,
};
use std::path::PathBuf;
use vstd::prelude::*;

verus! {

/// The rule gives no name to `item`.
pub open spec fn never_names(rule: RenameModel, item: MapInput<'static>) -> bool {
    forall|name: Option<String>| #[trigger] rule.may_return(item, name) ==> name is None
}

/// The rule can only be silent about `item`.
pub open spec fn silent_on(rule: RenameModel, item: MapInput<'static>) -> bool {
    forall|name: Option<String>| #[trigger] rule.may_return(item, name) <==> name is None
}

/// The rule has no way to skip `item`.
pub open spec fn never_skips(rule: SkipModel, item: MapInput<'static>) -> bool {
    !rule.may_return(item, true)
}

/// The rule can only leave `item` alone.
pub open spec fn spares(rule: SkipModel, item: MapInput<'static>) -> bool {
    forall|skipped: bool| #[trigger] rule.may_return(item, skipped) <==> !skipped
}

/// The rule gives one text to `item`, or none.
pub open spec fn names_alike(rule: RenameModel, item: MapInput<'static>) -> bool {
    forall|a: Option<String>, b: Option<String>| #[trigger]
        rule.may_return(item, a) && #[trigger] rule.may_return(item, b) ==> optional_text(a)
            == optional_text(b)
}

/// The rule does not have two answers to `item`.
pub open spec fn consistent_on(rule: SkipModel, item: MapInput<'static>) -> bool {
    !(rule.may_return(item, true) && rule.may_return(item, false))
}

/// Without rules, every item has its default name.
pub proof fn default_name_without_rules(item: MapInput<'static>, name: String)
    ensures
        name_answer(Seq::empty(), item, name) <==> name@ == default_name(item),
{
    assert(unnamed_before(Seq::empty(), item, 0));
}

/// Rules that come later have no say where earlier ones are sure to name the item.
pub proof fn earlier_name_wins(
    earlier: Seq<RenameModel>,
    later: Seq<RenameModel>,
    item: MapInput<'static>,
    name: String,
)
    requires
        !rename_answer(earlier, item, None),
    ensures
        name_answer(earlier + later, item, name) <==> name_answer(earlier, item, name),
{
    let all = earlier + later;
    assert forall|n: int| 0 <= n <= earlier.len() implies (unnamed_before(all, item, n)
        <==> unnamed_before(earlier, item, n)) by {
        assert forall|i: int| 0 <= i < n && unnamed_before(all, item, n) implies (
        #[trigger] earlier[i]).may_return(item, None) by {
            assert(all[i] == earlier[i]);
        }
        assert forall|i: int| 0 <= i < n && unnamed_before(earlier, item, n) implies (
        #[trigger] all[i]).may_return(item, None) by {
            assert(all[i] == earlier[i]);
        }
    }
    assert forall|n: int| earlier.len() <= n <= all.len() implies !unnamed_before(all, item, n) by {
        if unnamed_before(all, item, n) {
            assert(unnamed_before(all, item, earlier.len() as int));
        }
    }
    if rename_answer(all, item, Some(name)) {
        let i = choose|i: int|
            0 <= i < all.len() && (#[trigger] all[i]).may_return(item, Some(name))
                && unnamed_before(all, item, i);
        assert(earlier[i] == all[i]);
    }
    if rename_answer(earlier, item, Some(name)) {
        let i = choose|i: int|
            0 <= i < earlier.len() && (#[trigger] earlier[i]).may_return(item, Some(name))
                && unnamed_before(earlier, item, i);
        assert(earlier[i] == all[i]);
    }
}

/// A rule that gives no name to an item, wherever it stands, does not change its name.
pub proof fn silent_rule_changes_no_name(
    before: Seq<RenameModel>,
    rule: RenameModel,
    after: Seq<RenameModel>,
    item: MapInput<'static>,
    name: String,
)
    requires
        never_names(rule, item),
    ensures
        name_answer(before.push(rule) + after, item, name) ==> name_answer(
            before + after,
            item,
            name,
        ),
        rule.may_return(item, None) ==> (name_answer(before + after, item, name)
            ==> name_answer(before.push(rule) + after, item, name)),
{
    let with = before.push(rule) + after;
    let without = before + after;
    let k = before.len() as int;
    assert(with[k] == rule);
    assert forall|n: int| 0 <= n <= without.len() implies (unnamed_before(
        with,
        item,
        if n <= k { n } else { n + 1 },
    ) ==> unnamed_before(without, item, n)) && (rule.may_return(item, None) ==> unnamed_before(
        without,
        item,
        n,
    ) ==> unnamed_before(with, item, if n <= k { n } else { n + 1 })) by {
        let m = if n <= k { n } else { n + 1 };
        if rule.may_return(item, None) && unnamed_before(without, item, n) {
            assert forall|i: int| 0 <= i < m implies (#[trigger] with[i]).may_return(item, None) by {
                if i < k {
                    assert(with[i] == without[i]);
                } else if i > k {
                    assert(with[i] == without[i - 1]);
                }
            }
        }
        if unnamed_before(with, item, m) {
            assert forall|i: int| 0 <= i < n implies (#[trigger] without[i]).may_return(
                item,
                None,
            ) by {
                assert(without[i] == with[if i < k { i } else { i + 1 }]);
            }
        }
    }
    if rename_answer(with, item, Some(name)) {
        let i = choose|i: int|
            0 <= i < with.len() && (#[trigger] with[i]).may_return(item, Some(name))
                && unnamed_before(with, item, i);
        let j = if i < k { i } else { i - 1 };
        assert(i != k);
        assert(without[j] == with[i]);
        assert(unnamed_before(with, item, if j <= k { j } else { j + 1 }));
        assert(unnamed_before(without, item, j));
    }
    if rule.may_return(item, None) && rename_answer(without, item, Some(name)) {
        let j = choose|j: int|
            0 <= j < without.len() && (#[trigger] without[j]).may_return(item, Some(name))
                && unnamed_before(without, item, j);
        let i = if j < k { j } else { j + 1 };
        assert(without[j] == with[i]);
        assert(unnamed_before(with, item, i));
    }
}

/// A rule that was given for one kind of item has nothing to say about the other kinds.
pub proof fn rename_rules_keep_to_their_kind<
    A: Fn(&Const) -> Option<String>,
    B: Fn(&Struct, &Field) -> Option<String>,
    C: Fn(&crate::items::Fn) -> Option<String>,
    D: Fn(&str) -> Option<String>,
>(a: A, b: B, c: C, d: D, item: MapInput<'static>)
    ensures
        !(item is Const) ==> silent_on(const_rename(a), item),
        !(item is Field) ==> silent_on(field_rename(b), item),
        !(item is Fn) ==> silent_on(fn_rename(c), item),
        !(item is Type) ==> silent_on(type_rename(d), item),
        !(item is StructType) ==> silent_on(struct_type_rename(d), item),
        !(item is UnionType) ==> silent_on(union_type_rename(d), item),
{
}

/// Where each rule is of one mind about an item, its name has one text.
pub proof fn names_are_unique(
    rules: Seq<RenameModel>,
    item: MapInput<'static>,
    a: String,
    b: String,
)
    requires
        forall|i: int| 0 <= i < rules.len() ==> names_alike(#[trigger] rules[i], item),
        name_answer(rules, item, a),
        name_answer(rules, item, b),
    ensures
        a@ == b@,
{
    if rename_answer(rules, item, Some(a)) {
        let i = choose|i: int|
            0 <= i < rules.len() && (#[trigger] rules[i]).may_return(item, Some(a))
                && unnamed_before(rules, item, i);
        assert(optional_text(Some(a)) != optional_text(None));
        assert(!rules[i].may_return(item, None));
        if rename_answer(rules, item, Some(b)) {
            let j = choose|j: int|
                0 <= j < rules.len() && (#[trigger] rules[j]).may_return(item, Some(b))
                    && unnamed_before(rules, item, j);
            assert(optional_text(Some(b)) != optional_text(None));
            assert(!rules[j].may_return(item, None));
            assert(i == j);
            assert(optional_text(Some(a)) == optional_text(Some(b)));
        }
    } else if rename_answer(rules, item, Some(b)) {
        let j = choose|j: int|
            0 <= j < rules.len() && (#[trigger] rules[j]).may_return(item, Some(b))
                && unnamed_before(rules, item, j);
        assert(rules[j].may_return(item, None));
        assert(optional_text(Some(b)) == optional_text(None));
    }
}

/// Without rules, nothing is skipped.
pub proof fn nothing_skipped_without_rules(item: MapInput<'static>, skipped: bool)
    ensures
        skip_answer(Seq::empty(), item, skipped) <==> !skipped,
{
}

/// A further rule cannot bring back what earlier rules skip.
pub proof fn skipped_stays_skipped(
    rules: Seq<SkipModel>,
    later: Seq<SkipModel>,
    item: MapInput<'static>,
)
    requires
        skip_answer(rules, item, true),
    ensures
        skip_answer(rules + later, item, true),
{
    let all = rules + later;
    let i = choose|i: int|
        0 <= i < rules.len() && (#[trigger] rules[i]).may_return(item, true) && spared_before(
            rules,
            item,
            i,
        );
    assert(all[i] == rules[i]);
    assert forall|j: int| 0 <= j < i implies (#[trigger] all[j]).may_return(item, false) by {
        assert(all[j] == rules[j]);
    }
}

/// A rule that cannot skip an item, wherever it stands, has no say in whether it is skipped.
pub proof fn sparing_rule_changes_nothing(
    before: Seq<SkipModel>,
    rule: SkipModel,
    after: Seq<SkipModel>,
    item: MapInput<'static>,
    skipped: bool,
)
    requires
        never_skips(rule, item),
    ensures
        skip_answer(before.push(rule) + after, item, skipped) ==> skip_answer(
            before + after,
            item,
            skipped,
        ),
        rule.may_return(item, false) ==> (skip_answer(before + after, item, skipped)
            ==> skip_answer(before.push(rule) + after, item, skipped)),
{
    let with = before.push(rule) + after;
    let without = before + after;
    let k = before.len() as int;
    assert(with[k] == rule);
    assert forall|n: int| 0 <= n <= without.len() implies (spared_before(
        with,
        item,
        if n <= k { n } else { n + 1 },
    ) ==> spared_before(without, item, n)) && (rule.may_return(item, false) ==> spared_before(
        without,
        item,
        n,
    ) ==> spared_before(with, item, if n <= k { n } else { n + 1 })) by {
        let m = if n <= k { n } else { n + 1 };
        if rule.may_return(item, false) && spared_before(without, item, n) {
            assert forall|i: int| 0 <= i < m implies (#[trigger] with[i]).may_return(
                item,
                false,
            ) by {
                if i < k {
                    assert(with[i] == without[i]);
                } else if i > k {
                    assert(with[i] == without[i - 1]);
                }
            }
        }
        if spared_before(with, item, m) {
            assert forall|i: int| 0 <= i < n implies (#[trigger] without[i]).may_return(
                item,
                false,
            ) by {
                assert(without[i] == with[if i < k { i } else { i + 1 }]);
            }
        }
    }
    if skip_answer(with, item, true) {
        let i = choose|i: int|
            0 <= i < with.len() && (#[trigger] with[i]).may_return(item, true) && spared_before(
                with,
                item,
                i,
            );
        let j = if i < k { i } else { i - 1 };
        assert(i != k);
        assert(without[j] == with[i]);
        assert(spared_before(with, item, if j <= k { j } else { j + 1 }));
        assert(spared_before(without, item, j));
    }
    if rule.may_return(item, false) && skip_answer(without, item, true) {
        let j = choose|j: int|
            0 <= j < without.len() && (#[trigger] without[j]).may_return(item, true)
                && spared_before(without, item, j);
        let i = if j < k { j } else { j + 1 };
        assert(without[j] == with[i]);
        assert(spared_before(with, item, i));
    }
}

/// A rule that was given for one kind of item never skips the other kinds.
pub proof fn skip_rules_keep_to_their_kind<
    A: Fn(&Struct) -> bool,
    B: Fn(&Struct, &Field) -> bool,
    C: Fn(&Type) -> bool,
    D: Fn(&Const) -> bool,
    E: Fn(&Static) -> bool,
    G: Fn(&crate::items::Fn) -> bool,
>(a: A, b: B, c: C, d: D, e: E, g: G, item: MapInput<'static>)
    ensures
        !(item is Struct) ==> spares(struct_skip(a), item),
        !(item is Field) ==> spares(field_skip(b), item),
        !(item is Alias) ==> spares(alias_skip(c), item),
        !(item is Const) ==> spares(const_skip(d), item),
        !(item is Static) ==> spares(static_skip(e), item),
        !(item is Fn) ==> spares(fn_skip(g), item),
{
}

/// Where no rule has two answers to an item, the item is skipped exactly if some rule skips it.
pub proof fn skipped_if_any_rule_skips(
    rules: Seq<SkipModel>,
    item: MapInput<'static>,
    skipped: bool,
)
    requires
        forall|i: int| 0 <= i < rules.len() ==> consistent_on(#[trigger] rules[i], item),
        skip_answer(rules, item, skipped),
    ensures
        skipped == exists|i: int|
            0 <= i < rules.len() && (#[trigger] rules[i]).may_return(item, true),
{
    if !skipped {
        assert forall|i: int| 0 <= i < rules.len() implies !(#[trigger] rules[i]).may_return(
            item,
            true,
        ) by {
            assert(consistent_on(rules[i], item));
        }
    }
}

/// Where no rule has two answers to an item, the same rules in another order decide alike.
pub proof fn skip_order_is_irrelevant(
    a: Seq<SkipModel>,
    b: Seq<SkipModel>,
    item: MapInput<'static>,
    skipped_by_a: bool,
    skipped_by_b: bool,
)
    requires
        forall|i: int| 0 <= i < a.len() ==> consistent_on(#[trigger] a[i], item),
        forall|rule: SkipModel| a.contains(rule) <==> b.contains(rule),
        skip_answer(a, item, skipped_by_a),
        skip_answer(b, item, skipped_by_b),
    ensures
        skipped_by_a == skipped_by_b,
{
    assert forall|i: int| 0 <= i < b.len() implies consistent_on(#[trigger] b[i], item) by {
        assert(b.contains(b[i]));
    }
    skipped_if_any_rule_skips(a, item, skipped_by_a);
    skipped_if_any_rule_skips(b, item, skipped_by_b);
    if skipped_by_a {
        let i = choose|i: int| 0 <= i < a.len() && (#[trigger] a[i]).may_return(item, true);
        assert(a.contains(a[i]));
    }
    if skipped_by_b {
        let i = choose|i: int| 0 <= i < b.len() && (#[trigger] b[i]).may_return(item, true);
        assert(b.contains(b[i]));
    }
}

/// The rule never takes `item` to be volatile.
pub open spec fn passes_over(rule: VolatileModel, item: VolatileItemKind) -> bool {
    forall|volatile: bool| #[trigger] rule.may_return(item, volatile) <==> !volatile
}

/// A rule that was given for one kind of item takes no other kind to be volatile.
pub proof fn volatile_rules_keep_to_their_kind<
    A: Fn(Struct, Field) -> bool,
    B: Fn(Static) -> bool,
    C: Fn(crate::items::Fn, Box<Parameter>) -> bool,
    D: Fn(crate::items::Fn) -> bool,
>(a: A, b: B, c: C, d: D, item: VolatileItemKind)
    ensures
        !(item is StructField) ==> passes_over(field_volatile(a), item),
        !(item is Static) ==> passes_over(static_volatile(b), item),
        !(item is FnArgument) ==> passes_over(fn_arg_volatile(c), item),
        !(item is FnReturnType) ==> passes_over(fn_return_volatile(d), item),
{
}

/// Every item is either kept or skipped, and none is made up or lost.
pub proof fn kept_and_skipped_make_up_the_list<T>(items: Seq<T>, marks: Seq<bool>)
    requires
        marks.len() == items.len(),
    ensures
        select(items, marks, false).to_multiset().add(select(items, marks, true).to_multiset())
            == items.to_multiset(),
        select(items, marks, false).len() + select(items, marks, true).len() == items.len(),
    decreases items.len(),
{
    broadcast use vstd::seq_lib::group_to_multiset_ensures;

    if items.len() > 0 {
        kept_and_skipped_make_up_the_list(items.drop_last(), marks.drop_last());
        assert(items == items.drop_last().push(items.last()));
    } else {
        assert(select(items, marks, false) == items);
        assert(select(items, marks, true) == items);
        assert(items.to_multiset().len() == 0);
        assert(items.to_multiset() == vstd::multiset::Multiset::<T>::empty());
    }
}

/// The items of one mark are those that bear it, in the order in which they were listed.
pub proof fn selection_keeps_order<T>(items: Seq<T>, marks: Seq<bool>, mark: bool)
    requires
        marks.len() == items.len(),
    ensures
        exists|at: Seq<int>| #[trigger] picks(items, marks, mark, at),
    decreases items.len(),
{
    if items.len() == 0 {
        assert(picks(items, marks, mark, Seq::empty()));
    } else {
        let front = items.drop_last();
        let front_marks = marks.drop_last();
        selection_keeps_order(front, front_marks, mark);
        let at = choose|at: Seq<int>| #[trigger] picks(front, front_marks, mark, at);
        let last = items.len() - 1;
        let all = if marks.last() == mark {
            at.push(last)
        } else {
            at
        };
        assert forall|i: int| 0 <= i < items.len() && marks[i] == mark implies all.contains(i) by {
            if i < last {
                assert(front_marks[i] == mark);
                assert(at.contains(i));
                let k = choose|k: int| 0 <= k < at.len() && at[k] == i;
                assert(all[k] == i);
            } else {
                assert(all[at.len() as int] == i);
            }
        }
        assert(picks(items, marks, mark, all));
    }
}

/// `at` lists the places of the items of one mark, in order.
pub open spec fn picks<T>(items: Seq<T>, marks: Seq<bool>, mark: bool, at: Seq<int>) -> bool {
    let picked = select(items, marks, mark);
    &&& at.len() == picked.len()
    &&& forall|i: int, j: int| 0 <= i < j < at.len() ==> at[i] < at[j]
    &&& forall|k: int|
        0 <= k < at.len() ==> {
            &&& 0 <= #[trigger] at[k] < items.len()
            &&& marks[at[k]] == mark
            &&& picked[k] == items[at[k]]
        }
    &&& forall|i: int| 0 <= i < items.len() && marks[i] == mark ==> at.contains(i)
}

/// No rule has two answers to an item of the list.
pub open spec fn all_consistent<T: FfiItem>(rules: Seq<SkipModel>, items: Seq<T>) -> bool {
    forall|i: int, k: int|
        0 <= i < rules.len() && 0 <= k < items.len() ==> consistent_on(
            #[trigger] rules[i],
            (#[trigger] items[k]).as_input(),
        )
}

/// No rule has two answers to an item of any list.
pub open spec fn items_consistent(rules: Seq<SkipModel>, items: FfiItemsModel) -> bool {
    &&& all_consistent(rules, items.aliases)
    &&& all_consistent(rules, items.constants)
    &&& all_consistent(rules, items.structs)
    &&& all_consistent(rules, items.foreign_functions)
    &&& all_consistent(rules, items.foreign_statics)
}

proof fn kept_list_is_kept_again<T: FfiItem>(
    rules: Seq<SkipModel>,
    items: Seq<T>,
    first: Seq<bool>,
    second: Seq<bool>,
)
    requires
        all_consistent(rules, items),
        marks_answer(rules, items, first),
        marks_answer(rules, select(items, first, false), second),
    ensures
        select(select(items, first, false), second, false) == select(items, first, false),
        select(select(items, first, false), second, true) == Seq::<T>::empty(),
{
    let kept = select(items, first, false);
    selection_keeps_order(items, first, false);
    let at = choose|at: Seq<int>| #[trigger] picks(items, first, false, at);
    assert forall|k: int| 0 <= k < kept.len() implies !#[trigger] second[k] by {
        let item = items[at[k]];
        assert(kept[k] == item);
        assert(skip_answer(rules, item.as_input(), first[at[k]]));
        assert(skip_answer(rules, kept[k].as_input(), second[k]));
        assert forall|i: int| 0 <= i < rules.len() implies consistent_on(
            #[trigger] rules[i],
            item.as_input(),
        ) by {
            assert(consistent_on(rules[i], items[at[k]].as_input()));
        }
        skip_order_is_irrelevant(rules, rules, item.as_input(), first[at[k]], second[k]);
    }
    unmarked_list_stays(kept, second);
}

proof fn unmarked_list_stays<T>(items: Seq<T>, marks: Seq<bool>)
    requires
        marks.len() == items.len(),
        forall|k: int| 0 <= k < items.len() ==> !#[trigger] marks[k],
    ensures
        select(items, marks, false) == items,
        select(items, marks, true) == Seq::<T>::empty(),
    decreases items.len(),
{
    if items.len() > 0 {
        unmarked_list_stays(items.drop_last(), marks.drop_last());
        assert(items == items.drop_last().push(items.last()));
    }
}

/// Filtering what has been filtered already takes nothing more away, and reports nothing, where
/// no rule has two answers to an item.
pub proof fn filtering_again_changes_nothing(
    generator: GeneratorModel,
    before: FfiItemsModel,
    first: SkipMarks,
    kept: FfiItemsModel,
    first_lines: Seq<Seq<char>>,
    second: SkipMarks,
    after: FfiItemsModel,
    second_lines: Seq<Seq<char>>,
)
    requires
        items_consistent(generator.skips, before),
        filter_outcome(generator, before, first, kept, first_lines),
        filter_outcome(generator, kept, second, after, second_lines),
    ensures
        after == kept,
        second_lines == Seq::<Seq<char>>::empty(),
{
    let rules = generator.skips;
    kept_list_is_kept_again(rules, before.aliases, first.aliases, second.aliases);
    kept_list_is_kept_again(rules, before.constants, first.constants, second.constants);
    kept_list_is_kept_again(rules, before.structs, first.structs, second.structs);
    kept_list_is_kept_again(
        rules,
        before.foreign_functions,
        first.foreign_functions,
        second.foreign_functions,
    );
    kept_list_is_kept_again(
        rules,
        before.foreign_statics,
        first.foreign_statics,
        second.foreign_statics,
    );
    assert(second_lines =~= Seq::<Seq<char>>::empty());
}

/// `at` lists places in `whole`, in order, at which the items of `part` stand.
pub open spec fn embeds<T>(part: Seq<T>, whole: Seq<T>, at: Seq<int>) -> bool {
    &&& at.len() == part.len()
    &&& forall|i: int, j: int| 0 <= i < j < at.len() ==> at[i] < at[j]
    &&& forall|k: int|
        0 <= k < at.len() ==> 0 <= #[trigger] at[k] < whole.len() && part[k] == whole[at[k]]
}

/// `part` is what is left of `whole` when some items are taken out.
pub open spec fn subsequence<T>(part: Seq<T>, whole: Seq<T>) -> bool {
    exists|at: Seq<int>| #[trigger] embeds(part, whole, at)
}

/// Each list of `part` is what is left of that list of `whole` when some items are taken out.
pub open spec fn items_within(part: FfiItemsModel, whole: FfiItemsModel) -> bool {
    &&& subsequence(part.aliases, whole.aliases)
    &&& subsequence(part.constants, whole.constants)
    &&& subsequence(part.structs, whole.structs)
    &&& subsequence(part.foreign_functions, whole.foreign_functions)
    &&& subsequence(part.foreign_statics, whole.foreign_statics)
}

proof fn more_marks_keep_less<T>(items: Seq<T>, fewer: Seq<bool>, more: Seq<bool>)
    requires
        fewer.len() == items.len(),
        more.len() == items.len(),
        forall|k: int| 0 <= k < items.len() && fewer[k] ==> #[trigger] more[k],
    ensures
        subsequence(select(items, more, false), select(items, fewer, false)),
    decreases items.len(),
{
    let part = select(items, more, false);
    let whole = select(items, fewer, false);
    if items.len() == 0 {
        assert(embeds(part, whole, Seq::empty()));
    } else {
        let front = items.drop_last();
        assert forall|k: int| 0 <= k < front.len() && fewer.drop_last()[k] implies #[trigger]
        more.drop_last()[k] by {
            assert(more[k]);
        }
        more_marks_keep_less(front, fewer.drop_last(), more.drop_last());
        let front_part = select(front, more.drop_last(), false);
        let front_whole = select(front, fewer.drop_last(), false);
        let at = choose|at: Seq<int>| #[trigger] embeds(front_part, front_whole, at);
        if more.last() {
            assert(embeds(part, whole, at));
        } else {
            assert(!fewer.last());
            assert(embeds(part, whole, at.push(front_whole.len() as int)));
        }
    }
}

proof fn further_rules_keep_less<T: FfiItem>(
    rules: Seq<SkipModel>,
    later: Seq<SkipModel>,
    items: Seq<T>,
    marks: Seq<bool>,
    more: Seq<bool>,
)
    requires
        all_consistent(rules, items),
        marks_answer(rules, items, marks),
        marks_answer(rules + later, items, more),
    ensures
        subsequence(select(items, more, false), select(items, marks, false)),
{
    assert forall|k: int| 0 <= k < items.len() && marks[k] implies #[trigger] more[k] by {
        let input = items[k].as_input();
        assert(skip_answer(rules, input, marks[k]));
        assert(skip_answer(rules + later, input, more[k]));
        let i = choose|i: int| 0 <= i < rules.len() && (#[trigger] rules[i]).may_return(input, true);
        assert(consistent_on(rules[i], items[k].as_input()));
        assert((rules + later)[i] == rules[i]);
    }
    more_marks_keep_less(items, marks, more);
}

/// Further rules bring no item back: what is kept with them is what is kept without them, less
/// some items, in the same order. Where the first rules have two answers to an item, this need
/// not be.
pub proof fn further_rules_bring_nothing_back(
    generator: GeneratorModel,
    extended: GeneratorModel,
    later: Seq<SkipModel>,
    before: FfiItemsModel,
    marks: SkipMarks,
    kept: FfiItemsModel,
    lines: Seq<Seq<char>>,
    more: SkipMarks,
    still_kept: FfiItemsModel,
    more_lines: Seq<Seq<char>>,
)
    requires
        items_consistent(generator.skips, before),
        extended.skips == generator.skips + later,
        filter_outcome(generator, before, marks, kept, lines),
        filter_outcome(extended, before, more, still_kept, more_lines),
    ensures
        items_within(still_kept, kept),
{
    let rules = generator.skips;
    further_rules_keep_less(
        rules,
        later,
        before.aliases,
        marks.aliases,
        more.aliases,
    );
    further_rules_keep_less(
        rules,
        later,
        before.constants,
        marks.constants,
        more.constants,
    );
    further_rules_keep_less(
        rules,
        later,
        before.structs,
        marks.structs,
        more.structs,
    );
    further_rules_keep_less(
        rules,
        later,
        before.foreign_functions,
        marks.foreign_functions,
        more.foreign_functions,
    );
    further_rules_keep_less(
        rules,
        later,
        before.foreign_statics,
        marks.foreign_statics,
        more.foreign_statics,
    );
}

proof fn reordered_rules_mark_alike<T: FfiItem>(
    a: Seq<SkipModel>,
    b: Seq<SkipModel>,
    items: Seq<T>,
    marks_of_a: Seq<bool>,
    marks_of_b: Seq<bool>,
)
    requires
        all_consistent(a, items),
        forall|rule: SkipModel| a.contains(rule) <==> b.contains(rule),
        marks_answer(a, items, marks_of_a),
        marks_answer(b, items, marks_of_b),
    ensures
        marks_of_a == marks_of_b,
{
    assert forall|k: int| 0 <= k < items.len() implies #[trigger] marks_of_a[k]
        == marks_of_b[k] by {
        let item = items[k];
        assert(skip_answer(a, item.as_input(), marks_of_a[k]));
        assert(skip_answer(b, item.as_input(), marks_of_b[k]));
        assert forall|i: int| 0 <= i < a.len() implies consistent_on(
            #[trigger] a[i],
            item.as_input(),
        ) by {
            assert(consistent_on(a[i], items[k].as_input()));
        }
        skip_order_is_irrelevant(a, b, item.as_input(), marks_of_a[k], marks_of_b[k]);
    }
    assert(marks_of_a =~= marks_of_b);
}

/// The same rules in another order keep the same items, and report the same lines where both
/// report, where no rule has two answers to an item.
pub proof fn rule_order_changes_no_list(
    a: GeneratorModel,
    b: GeneratorModel,
    before: FfiItemsModel,
    marks_of_a: SkipMarks,
    kept_by_a: FfiItemsModel,
    lines_of_a: Seq<Seq<char>>,
    marks_of_b: SkipMarks,
    kept_by_b: FfiItemsModel,
    lines_of_b: Seq<Seq<char>>,
)
    requires
        items_consistent(a.skips, before),
        forall|rule: SkipModel| a.skips.contains(rule) <==> b.skips.contains(rule),
        filter_outcome(a, before, marks_of_a, kept_by_a, lines_of_a),
        filter_outcome(b, before, marks_of_b, kept_by_b, lines_of_b),
    ensures
        kept_by_a == kept_by_b,
        a.verbose_skip == b.verbose_skip ==> lines_of_a == lines_of_b,
{
    reordered_rules_mark_alike(
        a.skips,
        b.skips,
        before.aliases,
        marks_of_a.aliases,
        marks_of_b.aliases,
    );
    reordered_rules_mark_alike(
        a.skips,
        b.skips,
        before.constants,
        marks_of_a.constants,
        marks_of_b.constants,
    );
    reordered_rules_mark_alike(
        a.skips,
        b.skips,
        before.structs,
        marks_of_a.structs,
        marks_of_b.structs,
    );
    reordered_rules_mark_alike(
        a.skips,
        b.skips,
        before.foreign_functions,
        marks_of_a.foreign_functions,
        marks_of_b.foreign_functions,
    );
    reordered_rules_mark_alike(
        a.skips,
        b.skips,
        before.foreign_statics,
        marks_of_a.foreign_statics,
        marks_of_b.foreign_statics,
    );
}

/// Filtering one kind after another comes to filtering all items: `states[i + 1]` is what is left
/// of `states[i]` when the kind at place `i` has been filtered.
pub proof fn filtering_each_kind_filters_all(
    generator: GeneratorModel,
    states: Seq<FfiItemsModel>,
    marks: SkipMarks,
    lines: Seq<Seq<Seq<char>>>,
)
    requires
        states.len() == 6,
        lines.len() == 5,
        kind_outcome(generator, states[0], ItemKind::Alias, marks.aliases, states[1], lines[0]),
        kind_outcome(generator, states[1], ItemKind::Const, marks.constants, states[2], lines[1]),
        kind_outcome(generator, states[2], ItemKind::Struct, marks.structs, states[3], lines[2]),
        kind_outcome(
            generator,
            states[3],
            ItemKind::Fn,
            marks.foreign_functions,
            states[4],
            lines[3],
        ),
        kind_outcome(
            generator,
            states[4],
            ItemKind::Static,
            marks.foreign_statics,
            states[5],
            lines[4],
        ),
    ensures
        filter_outcome(
            generator,
            states[0],
            marks,
            states[5],
            lines[0] + lines[1] + lines[2] + lines[3] + lines[4],
        ),
{
    let all = lines[0] + lines[1] + lines[2] + lines[3] + lines[4];
    if generator.verbose_skip {
        assert(all == report_lines(select_items(states[0], marks, true)));
    } else {
        assert(all =~= Seq::<Seq<char>>::empty());
    }
    assert(states[5] == select_items(states[0], marks, false));
}

proof fn kept_list_stays_ready<T: FfiItem>(rules: Seq<SkipModel>, items: Seq<T>, marks: Seq<bool>)
    requires
        marks.len() == items.len(),
        all_ready(rules, items),
    ensures
        all_ready(rules, select(items, marks, false)),
{
    let kept = select(items, marks, false);
    selection_keeps_order(items, marks, false);
    let at = choose|at: Seq<int>| #[trigger] picks(items, marks, false, at);
    assert forall|k: int| 0 <= k < kept.len() implies skip_ready(
        rules,
        (#[trigger] kept[k]).as_input(),
    ) by {
        assert(kept[k] == items[at[k]]);
        assert(skip_ready(rules, items[at[k]].as_input()));
    }
}

/// Where all items can be put to the rules, so can those that are left after one kind has been
/// filtered.
pub proof fn filtered_items_stay_ready(
    generator: GeneratorModel,
    before: FfiItemsModel,
    kind: ItemKind,
    marks: Seq<bool>,
    after: FfiItemsModel,
    lines: Seq<Seq<char>>,
)
    requires
        filter_ready(generator.skips, before),
        kind_outcome(generator, before, kind, marks, after, lines),
    ensures
        filter_ready(generator.skips, after),
{
    let rules = generator.skips;
    match kind {
        ItemKind::Alias => kept_list_stays_ready(rules, before.aliases, marks),
        ItemKind::Const => kept_list_stays_ready(rules, before.constants, marks),
        ItemKind::Struct => kept_list_stays_ready(rules, before.structs, marks),
        ItemKind::Fn => kept_list_stays_ready(rules, before.foreign_functions, marks),
        ItemKind::Static => kept_list_stays_ready(rules, before.foreign_statics, marks),
    }
}

/// Whether skipped items are reported has no influence on which items are skipped.
pub proof fn reporting_does_not_change_the_items(
    generator: GeneratorModel,
    verbose: bool,
    before: FfiItemsModel,
    marks: SkipMarks,
    after: FfiItemsModel,
)
    ensures
        (exists|lines: Seq<Seq<char>>| #[trigger]
            filter_outcome(generator, before, marks, after, lines)) <==> (exists|
            lines: Seq<Seq<char>>,
        | #[trigger]
            filter_outcome(generator.with_verbose_skip(verbose), before, marks, after, lines)),
{
    let reported = report_lines(select_items(before, marks, true));
    let none = Seq::<Seq<char>>::empty();
    if marks_items(generator.skips, before, marks) && after == select_items(before, marks, false) {
        assert(filter_outcome(
            generator,
            before,
            marks,
            after,
            if generator.verbose_skip {
                reported
            } else {
                none
            },
        ));
        assert(filter_outcome(
            generator.with_verbose_skip(verbose),
            before,
            marks,
            after,
            if verbose {
                reported
            } else {
                none
            },
        ));
    }
}

/// A rule that skips no item of a list has no say in which of them are skipped. So a rule that was
/// given for one kind of item leaves the lists of the other kinds alone.
pub proof fn sparing_rule_marks_nothing<T: FfiItem>(
    rules: Seq<SkipModel>,
    rule: SkipModel,
    items: Seq<T>,
    marks: Seq<bool>,
)
    requires
        forall|k: int| 0 <= k < items.len() ==> never_skips(rule, (#[trigger] items[k]).as_input()),
    ensures
        marks_answer(rules.push(rule), items, marks) ==> marks_answer(rules, items, marks),
        (forall|k: int|
            0 <= k < items.len() ==> rule.may_return((#[trigger] items[k]).as_input(), false)) ==> (
        marks_answer(rules, items, marks) ==> marks_answer(rules.push(rule), items, marks)),
{
    let none = Seq::<SkipModel>::empty();
    let more = rules.push(rule);
    assert(more + none == more);
    assert(rules + none == rules);
    assert forall|k: int| 0 <= k < items.len() implies (skip_answer(
        more,
        (#[trigger] items[k]).as_input(),
        marks[k],
    ) ==> skip_answer(rules, items[k].as_input(), marks[k])) && (rule.may_return(
        items[k].as_input(),
        false,
    ) ==> skip_answer(rules, items[k].as_input(), marks[k]) ==> skip_answer(
        more,
        items[k].as_input(),
        marks[k],
    )) by {
        sparing_rule_changes_nothing(rules, rule, none, items[k].as_input(), marks[k]);
    }
}

/// A rule that skips fields takes no item out of the lists: fields are not items of their own.
pub proof fn field_rules_filter_no_items<F: Fn(&Struct, &Field) -> bool>(
    generator: GeneratorModel,
    f: F,
    before: FfiItemsModel,
    marks: SkipMarks,
    after: FfiItemsModel,
    lines: Seq<Seq<char>>,
)
    ensures
        filter_outcome(generator.with_skip(field_skip(f)), before, marks, after, lines)
            <==> filter_outcome(generator, before, marks, after, lines),
{
    let rules = generator.skips;
    sparing_rule_marks_nothing(rules, field_skip(f), before.aliases, marks.aliases);
    sparing_rule_marks_nothing(rules, field_skip(f), before.constants, marks.constants);
    sparing_rule_marks_nothing(rules, field_skip(f), before.structs, marks.structs);
    sparing_rule_marks_nothing(
        rules,
        field_skip(f),
        before.foreign_functions,
        marks.foreign_functions,
    );
    sparing_rule_marks_nothing(
        rules,
        field_skip(f),
        before.foreign_statics,
        marks.foreign_statics,
    );
}

/// One call of a builder method.
pub ghost enum Setting {
    Header(Seq<char>),
    Target(Seq<char>),
    IncludePath(PathBuf),
    OutDir(PathBuf),
    Flag(Seq<char>),
    Define(Seq<char>, Option<Seq<char>>),
    MappedName(RenameModel),
    Skip(SkipModel),
    VerboseSkip(bool),
    VolatileItem(VolatileModel),
    ArrayArg(ArrayArgModel),
}

/// The configuration after one more call.
pub open spec fn configured(generator: GeneratorModel, setting: Setting) -> GeneratorModel {
    match setting {
        Setting::Header(header) => generator.with_header(header),
        Setting::Target(target) => generator.with_target(target),
        Setting::IncludePath(path) => generator.with_include(path),
        Setting::OutDir(path) => generator.with_out_dir(path),
        Setting::Flag(flag) => generator.with_flag(flag),
        Setting::Define(k, v) => generator.with_define(k, v),
        Setting::MappedName(rule) => generator.with_mapped_name(rule),
        Setting::Skip(rule) => generator.with_skip(rule),
        Setting::VerboseSkip(skip) => generator.with_verbose_skip(skip),
        Setting::VolatileItem(rule) => generator.with_volatile_item(rule),
        Setting::ArrayArg(rule) => generator.with_array_arg(rule),
    }
}

/// Both calls concern the same part of the configuration.
pub open spec fn same_part(a: Setting, b: Setting) -> bool {
    match (a, b) {
        (Setting::Header(_), Setting::Header(_)) => true,
        (Setting::Target(_), Setting::Target(_)) => true,
        (Setting::IncludePath(_), Setting::IncludePath(_)) => true,
        (Setting::OutDir(_), Setting::OutDir(_)) => true,
        (Setting::Flag(_), Setting::Flag(_)) => true,
        (Setting::Define(_, _), Setting::Define(_, _)) => true,
        (Setting::MappedName(_), Setting::MappedName(_)) => true,
        (Setting::Skip(_), Setting::Skip(_)) => true,
        (Setting::VerboseSkip(_), Setting::VerboseSkip(_)) => true,
        (Setting::VolatileItem(_), Setting::VolatileItem(_)) => true,
        (Setting::ArrayArg(_), Setting::ArrayArg(_)) => true,
        _ => false,
    }
}

/// Calls that concern different parts of the configuration can be made in either order.
pub proof fn different_settings_commute(generator: GeneratorModel, a: Setting, b: Setting)
    requires
        !same_part(a, b),
    ensures
        configured(configured(generator, a), b) == configured(configured(generator, b), a),
{
}

/// Of two calls that set one value, the later one counts.
pub proof fn later_setting_replaces(generator: GeneratorModel, a: Setting, b: Setting)
    requires
        same_part(a, b),
        a is Target || a is OutDir || a is VerboseSkip || a is ArrayArg,
    ensures
        configured(configured(generator, a), b) == configured(generator, b),
{
}

/// How many events a run can still take at most.
pub open spec fn events_left(run: GenerationModel) -> nat {
    match run.stage {
        Stage::Expanding => 14,
        Stage::Collecting => 13,
        Stage::Reporting(ItemKind::Alias) => 12,
        Stage::Reporting(ItemKind::Const) => 11,
        Stage::Reporting(ItemKind::Struct) => 10,
        Stage::Reporting(ItemKind::Fn) => 9,
        Stage::Reporting(ItemKind::Static) => 8,
        Stage::Locating => 7,
        Stage::Creating(TestSide::Rust) => 6,
        Stage::Rendering(TestSide::Rust) => 5,
        Stage::Writing(TestSide::Rust) => 4,
        Stage::Creating(TestSide::C) => 3,
        Stage::Rendering(TestSide::C) => 2,
        Stage::Writing(TestSide::C) => 1,
        Stage::Finished => 0,
    }
}

/// Every event brings a run nearer to its end; the end is told, once; and what the run was asked
/// for stays as it was.
pub proof fn every_step_makes_progress(
    generator: GeneratorModel,
    run: GenerationModel,
    event: Event,
    after: GenerationModel,
    action: Action,
)
    requires
        run.expects(generator, event),
        run.steps(generator, event, after, action),
    ensures
        events_left(after) < events_left(run),
        action is Finish <==> after.stage is Finished,
        after.crate_path == run.crate_path,
        after.file_path == run.file_path,
{
}

/// A finished run takes no event.
pub proof fn finished_run_expects_nothing(
    generator: GeneratorModel,
    run: GenerationModel,
    event: Event,
)
    requires
        run.stage is Finished,
    ensures
        !run.expects(generator, event),
{
}

/// A run from its beginning: after `events[i]`, the state is `states[i + 1]` and `actions[i + 1]`
/// is asked for.
pub open spec fn is_run(
    generator: GeneratorModel,
    crate_path: PathBuf,
    file_path: PathBuf,
    states: Seq<GenerationModel>,
    events: Seq<Event>,
    actions: Seq<Action>,
) -> bool {
    &&& states.len() == events.len() + 1
    &&& actions.len() == states.len()
    &&& states[0] == GenerationModel::start(crate_path, file_path)
    &&& actions[0] == Action::Expand(crate_path)
    &&& forall|i: int|
        0 <= i < events.len() ==> {
            &&& states[i].expects(generator, #[trigger] events[i])
            &&& states[i].steps(generator, events[i], states[i + 1], actions[i + 1])
        }
}

/// From `actions[at]` on, the file of a side is created, its text is rendered, and the text is
/// written to the file, all with success.
pub open spec fn makes_file(
    side: TestSide,
    output: PathBuf,
    events: Seq<Event>,
    actions: Seq<Action>,
    at: int,
) -> bool {
    &&& actions[at] == Action::Create(path_with_extension(output, side.file_extension()))
    &&& events[at] matches Event::Created(Ok(_))
    &&& actions[at + 1] == Action::Render(side)
    &&& events[at + 1] matches Event::Rendered(Ok(text)) && actions[at + 2] == Action::Write(text)
    &&& events[at + 2] matches Event::Written(Ok(_))
}

/// Every run is over after fourteen events at most.
pub proof fn runs_are_short(
    generator: GeneratorModel,
    crate_path: PathBuf,
    file_path: PathBuf,
    states: Seq<GenerationModel>,
    events: Seq<Event>,
    actions: Seq<Action>,
)
    requires
        is_run(generator, crate_path, file_path, states, events, actions),
    ensures
        events.len() + events_left(states.last()) <= 14,
    decreases events.len(),
{
    if events.len() > 0 {
        let n = events.len() - 1;
        assert(events[n] == events.last());
        every_step_makes_progress(generator, states[n], events[n], states[n + 1], actions[n + 1]);
        assert forall|i: int| 0 <= i < events.drop_last().len() implies {
            &&& states.drop_last()[i].expects(generator, #[trigger] events.drop_last()[i])
            &&& states.drop_last()[i].steps(
                generator,
                events.drop_last()[i],
                states.drop_last()[i + 1],
                actions.drop_last()[i + 1],
            )
        } by {
            assert(events[i] == events.drop_last()[i]);
        }
        runs_are_short(
            generator,
            crate_path,
            file_path,
            states.drop_last(),
            events.drop_last(),
            actions.drop_last(),
        );
    }
}

/// The lines of a report.
pub open spec fn reported(action: Action) -> Seq<Seq<char>> {
    match action {
        Action::Report(lines) => texts(lines@),
        _ => Seq::empty(),
    }
}

/// A run that ends well has expanded and parsed the crate, taken out and reported the skipped
/// items, one kind after another, and made both files, the Rust file first. They lie in the
/// configured output directory, or in the one that was found where none is configured. The run
/// gives their path, with the extension of `file_path` in place of their own.
pub proof fn successful_run_makes_both_files(
    generator: GeneratorModel,
    crate_path: PathBuf,
    file_path: PathBuf,
    states: Seq<GenerationModel>,
    events: Seq<Event>,
    actions: Seq<Action>,
    output: PathBuf,
)
    requires
        is_run(generator, crate_path, file_path, states, events, actions),
        actions.last() == Action::Finish(Ok(output)),
    ensures
        ({
            let at: int = if generator.out_dir is Some {
                7
            } else {
                8
            };
            &&& events.len() == at + 6
            &&& events[0] matches Event::Expanded(Ok(source)) && syntax_tree(source@) matches Ok(
                tree,
            ) && actions[1] == Action::Collect(tree)
            &&& forall|i: int| 2 <= i < 7 ==> (#[trigger] actions[i]) is Report && events[i]
                == Event::Reported
            &&& events[1] matches Event::Collected(found) && exists|marks: SkipMarks| #[trigger]
                filter_outcome(
                    generator,
                    found@,
                    marks,
                    states.last().ffi_items,
                    reported(actions[2]) + reported(actions[3]) + reported(actions[4]) + reported(
                        actions[5],
                    ) + reported(actions[6]),
                )
            &&& match generator.out_dir {
                Some(directory) => output == joined_path(directory, file_path),
                None => actions[7] == Action::FindOutDir && (events[7] matches Event::OutDirFound(
                    directory,
                ) && output == joined_path(directory, file_path)),
            }
            &&& makes_file(TestSide::Rust, output, events, actions, at)
            &&& makes_file(TestSide::C, output, events, actions, at + 3)
        }),
{
    let n = events.len() as int;
    let at: int = if generator.out_dir is Some {
        7
    } else {
        8
    };
    assert forall|i: int| 0 <= i < n && states[i].stage is Finished implies false by {
        assert(states[i].expects(generator, events[i]));
    }
    assert(n > 0);
    assert(states[0].expects(generator, events[0]));
    assert(states[1].stage is Collecting) by {
        if n > 1 {
            assert(states[1].expects(generator, events[1]));
        }
    }
    assert(n > 1);
    assert(states[1].expects(generator, events[1]));
    assert(states[2].stage == Stage::Reporting(ItemKind::Alias));
    assert(n > 2);
    assert(states[2].expects(generator, events[2]));
    assert(states[3].stage == Stage::Reporting(ItemKind::Const));
    assert(n > 3);
    assert(states[3].expects(generator, events[3]));
    assert(states[4].stage == Stage::Reporting(ItemKind::Struct));
    assert(n > 4);
    assert(states[4].expects(generator, events[4]));
    assert(states[5].stage == Stage::Reporting(ItemKind::Fn));
    assert(n > 5);
    assert(states[5].expects(generator, events[5]));
    assert(states[6].stage == Stage::Reporting(ItemKind::Static));
    assert(n > 6);
    assert(states[6].expects(generator, events[6]));
    let found = events[1]->Collected_0@;
    reports_filter_the_items(generator, found, states, actions);
    if generator.out_dir is None {
        assert(states[7].stage is Locating);
        assert(n > 7);
        assert(states[7].expects(generator, events[7]));
    }
    assert(states[at].stage == Stage::Creating(TestSide::Rust));
    assert(n > at);
    assert(states[at].expects(generator, events[at]));
    assert(states[at + 1].stage == Stage::Rendering(TestSide::Rust));
    assert(n > at + 1);
    assert(states[at + 1].expects(generator, events[at + 1]));
    assert(states[at + 2].stage == Stage::Writing(TestSide::Rust));
    assert(n > at + 2);
    assert(states[at + 2].expects(generator, events[at + 2]));
    assert(states[at + 3].stage == Stage::Creating(TestSide::C));
    assert(n > at + 3);
    assert(states[at + 3].expects(generator, events[at + 3]));
    assert(states[at + 4].stage == Stage::Rendering(TestSide::C));
    assert(n > at + 4);
    assert(states[at + 4].expects(generator, events[at + 4]));
    assert(states[at + 5].stage == Stage::Writing(TestSide::C));
    assert(n > at + 5);
    assert(states[at + 5].expects(generator, events[at + 5]));
    assert(states[at + 6].stage is Finished);
    assert(n == at + 6);
    assert(states.last().ffi_items == states[6].ffi_items);
}

proof fn reports_filter_the_items(
    generator: GeneratorModel,
    found: FfiItemsModel,
    states: Seq<GenerationModel>,
    actions: Seq<Action>,
)
    requires
        states.len() >= 7,
        states[1].reports(generator, found, ItemKind::Alias, states[2], actions[2]),
        states[2].reports(
            generator,
            states[2].ffi_items,
            ItemKind::Const,
            states[3],
            actions[3],
        ),
        states[3].reports(
            generator,
            states[3].ffi_items,
            ItemKind::Struct,
            states[4],
            actions[4],
        ),
        states[4].reports(generator, states[4].ffi_items, ItemKind::Fn, states[5], actions[5]),
        states[5].reports(
            generator,
            states[5].ffi_items,
            ItemKind::Static,
            states[6],
            actions[6],
        ),
    ensures
        exists|marks: SkipMarks| #[trigger]
            filter_outcome(
                generator,
                found,
                marks,
                states[6].ffi_items,
                reported(actions[2]) + reported(actions[3]) + reported(actions[4]) + reported(
                    actions[5],
                ) + reported(actions[6]),
            ),
{
    let lists = seq![
        found,
        states[2].ffi_items,
        states[3].ffi_items,
        states[4].ffi_items,
        states[5].ffi_items,
        states[6].ffi_items,
    ];
    let lines = seq![
        reported(actions[2]),
        reported(actions[3]),
        reported(actions[4]),
        reported(actions[5]),
        reported(actions[6]),
    ];
    let marks = SkipMarks {
        aliases: choose|marks: Seq<bool>| #[trigger]
            kind_outcome(generator, lists[0], ItemKind::Alias, marks, lists[1], lines[0]),
        constants: choose|marks: Seq<bool>| #[trigger]
            kind_outcome(generator, lists[1], ItemKind::Const, marks, lists[2], lines[1]),
        structs: choose|marks: Seq<bool>| #[trigger]
            kind_outcome(generator, lists[2], ItemKind::Struct, marks, lists[3], lines[2]),
        foreign_functions: choose|marks: Seq<bool>| #[trigger]
            kind_outcome(generator, lists[3], ItemKind::Fn, marks, lists[4], lines[3]),
        foreign_statics: choose|marks: Seq<bool>| #[trigger]
            kind_outcome(generator, lists[4], ItemKind::Static, marks, lists[5], lines[4]),
    };
    filtering_each_kind_filters_all(generator, lists, marks, lines);
}

} // verus!
