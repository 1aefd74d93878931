//! The supporters on display.
//!
//! A supporter is shown once for each of its localisations, together with
//! the title of its kind. A supporter without a kind, or whose kind is not
//! in the table, is not shown, nor is one without a localisation.

use vstd::prelude::*;
use crate::database::models::{
    Supporter, SupporterTranslatable, SupporterType, SupporterWithTypeAndTranslatable,
};
use crate::database::store::Store;

verus! {

/// The supporter is of the kind.
pub open spec fn is_of_type(supporter: Supporter, kind: SupporterType) -> bool {
    supporter.supporter_type_id == Some(kind.id)
}

/// The localisation is the supporter's.
pub open spec fn translates(translatable: SupporterTranslatable, supporter: Supporter) -> bool {
    translatable.supporter_id == supporter.id
}

/// The row that shows a supporter of a kind in one localisation.
pub open spec fn joined_row(
    supporter: Supporter,
    kind: SupporterType,
    translatable: SupporterTranslatable,
) -> SupporterWithTypeAndTranslatable {
    SupporterWithTypeAndTranslatable {
        id: supporter.id,
        supporter_type_title: kind.title,
        locale: translatable.locale,
        title: translatable.title,
        description: translatable.description,
        url: translatable.url,
        logo_url: translatable.logo_url,
        logo_width: translatable.logo_width,
        logo_height: translatable.logo_height,
        logo_alt_text: translatable.logo_alt_text,
    }
}

/// The rows of one supporter of one kind: one for each of the supporter's
/// localisations, in table order.
pub open spec fn joined_translatables(
    supporter: Supporter,
    kind: SupporterType,
    translatables: Seq<SupporterTranslatable>,
) -> Seq<SupporterWithTypeAndTranslatable>
    decreases translatables.len(),
{
    if translatables.len() == 0 {
        Seq::empty()
    } else {
        let before = joined_translatables(supporter, kind, translatables.drop_last());
        if translates(translatables.last(), supporter) {
            before.push(joined_row(supporter, kind, translatables.last()))
        } else {
            before
        }
    }
}

/// The rows of one supporter: those of each kind that is the supporter's, in
/// table order of the kinds.
pub open spec fn joined_types(
    supporter: Supporter,
    kinds: Seq<SupporterType>,
    translatables: Seq<SupporterTranslatable>,
) -> Seq<SupporterWithTypeAndTranslatable>
    decreases kinds.len(),
{
    if kinds.len() == 0 {
        Seq::empty()
    } else {
        let before = joined_types(supporter, kinds.drop_last(), translatables);
        if is_of_type(supporter, kinds.last()) {
            before + joined_translatables(supporter, kinds.last(), translatables)
        } else {
            before
        }
    }
}

/// The supporters joined with their kinds and their localisations: the rows
/// of each supporter, in table order of the supporters.
pub open spec fn joined_supporters(
    supporters: Seq<Supporter>,
    kinds: Seq<SupporterType>,
    translatables: Seq<SupporterTranslatable>,
) -> Seq<SupporterWithTypeAndTranslatable>
    decreases supporters.len(),
{
    if supporters.len() == 0 {
        Seq::empty()
    } else {
        joined_supporters(supporters.drop_last(), kinds, translatables) + joined_types(
            supporters.last(),
            kinds,
            translatables,
        )
    }
}

/// Shows a supporter of a kind in one localisation.
fn join_row(
    supporter: &Supporter,
    kind: &SupporterType,
    translatable: &SupporterTranslatable,
) -> (row: SupporterWithTypeAndTranslatable)
    ensures
        row == joined_row(*supporter, *kind, *translatable),
{
    SupporterWithTypeAndTranslatable {
        id: supporter.id,
        supporter_type_title: kind.title.clone(),
        locale: translatable.locale.clone(),
        title: translatable.title.clone(),
        description: translatable.description.clone(),
        url: translatable.url.clone(),
        logo_url: translatable.logo_url.clone(),
        logo_width: translatable.logo_width,
        logo_height: translatable.logo_height,
        logo_alt_text: translatable.logo_alt_text.clone(),
    }
}

/// Every supporter that has a kind, once for each of its localisations, with
/// the kind's title: the inner join of the three tables, supporter by
/// supporter in table order.
pub fn get_supporters(store: &Store) -> (found: Vec<SupporterWithTypeAndTranslatable>)
    ensures
        found@ == joined_supporters(
            store@.supporters,
            store@.supporter_types,
            store@.supporter_translatables,
        ),
{
    let ghost supporters = store.supporters@;
    let ghost kinds = store.supporter_types@;
    let ghost translatables = store.supporter_translatables@;
    let mut found: Vec<SupporterWithTypeAndTranslatable> = Vec::new();
    let mut s: usize = 0;
    while s < store.supporters.len()
        invariant
            s <= store.supporters.len(),
            supporters == store.supporters@,
            kinds == store.supporter_types@,
            translatables == store.supporter_translatables@,
            found@ == joined_supporters(supporters.take(s as int), kinds, translatables),
        decreases store.supporters.len() - s,
    {
        let supporter = store.supporters[s];
        let ghost done = found@;
        let mut t: usize = 0;
        while t < store.supporter_types.len()
            invariant
                t <= store.supporter_types.len(),
                s < store.supporters.len(),
                supporter == store.supporters@[s as int],
                kinds == store.supporter_types@,
                translatables == store.supporter_translatables@,
                found@ == done + joined_types(supporter, kinds.take(t as int), translatables),
            decreases store.supporter_types.len() - t,
        {
            let kind = &store.supporter_types[t];
            let ghost done_types = found@;
            assert(kinds.take(t + 1).drop_last() =~= kinds.take(t as int));
            if supporter.supporter_type_id == Some(kind.id) {
                let mut x: usize = 0;
                while x < store.supporter_translatables.len()
                    invariant
                        x <= store.supporter_translatables.len(),
                        t < store.supporter_types.len(),
                        *kind == store.supporter_types@[t as int],
                        translatables == store.supporter_translatables@,
                        found@ == done_types + joined_translatables(
                            supporter,
                            *kind,
                            translatables.take(x as int),
                        ),
                    decreases store.supporter_translatables.len() - x,
                {
                    let translatable = &store.supporter_translatables[x];
                    assert(translatables.take(x + 1).drop_last() =~= translatables.take(x as int));
                    if translatable.supporter_id == supporter.id {
                        found.push(join_row(&supporter, kind, translatable));
                    }
                    x += 1;
                }
                assert(translatables.take(x as int) =~= translatables);
            }
            t += 1;
        }
        assert(kinds.take(t as int) =~= kinds);
        assert(supporters.take(s + 1).drop_last() =~= supporters.take(s as int));
        s += 1;
    }
    assert(supporters.take(s as int) =~= supporters);
    found
}

/// The row shows the supporter at place `s` with the kind at place `t` in
/// the localisation at place `x`, and these belong together.
pub open spec fn is_joined_from(
    row: SupporterWithTypeAndTranslatable,
    supporters: Seq<Supporter>,
    kinds: Seq<SupporterType>,
    translatables: Seq<SupporterTranslatable>,
    s: int,
    t: int,
    x: int,
) -> bool {
    &&& 0 <= s < supporters.len()
    &&& 0 <= t < kinds.len()
    &&& 0 <= x < translatables.len()
    &&& is_of_type(supporters[s], kinds[t])
    &&& translates(translatables[x], supporters[s])
    &&& row == joined_row(supporters[s], kinds[t], translatables[x])
}

/// Among the rows of one supporter of one kind, a row occurs exactly when
/// one of the supporter's localisations makes it.
proof fn lemma_joined_translatables_hold(
    supporter: Supporter,
    kind: SupporterType,
    translatables: Seq<SupporterTranslatable>,
    row: SupporterWithTypeAndTranslatable,
)
    ensures
        joined_translatables(supporter, kind, translatables).contains(row) <==> exists|x: int|
            0 <= x < translatables.len() && translates(#[trigger] translatables[x], supporter)
                && row == joined_row(supporter, kind, translatables[x]),
    decreases translatables.len(),
{
    if translatables.len() > 0 {
        let front = translatables.drop_last();
        let last = translatables.last();
        let before = joined_translatables(supporter, kind, front);
        let all = joined_translatables(supporter, kind, translatables);
        lemma_joined_translatables_hold(supporter, kind, front, row);
        if all.contains(row) {
            let at = choose|at: int| 0 <= at < all.len() && all[at] == row;
            if at < before.len() {
                assert(before[at] == row);
                assert(before.contains(row));
                let x = choose|x: int|
                    0 <= x < front.len() && translates(#[trigger] front[x], supporter) && row
                        == joined_row(supporter, kind, front[x]);
                assert(translatables[x] == front[x]);
            } else {
                assert(translates(translatables[translatables.len() - 1], supporter));
            }
        }
        if exists|x: int|
            0 <= x < translatables.len() && translates(#[trigger] translatables[x], supporter)
                && row == joined_row(supporter, kind, translatables[x]) {
            let x = choose|x: int|
                0 <= x < translatables.len() && translates(#[trigger] translatables[x], supporter)
                    && row == joined_row(supporter, kind, translatables[x]);
            if x < front.len() {
                assert(front[x] == translatables[x]);
                assert(before.contains(row));
                let at = choose|at: int| 0 <= at < before.len() && before[at] == row;
                assert(all[at] == row);
            } else {
                assert(all[all.len() - 1] == row);
            }
        }
    }
}

/// Among the rows of one supporter, a row occurs exactly when a kind that
/// is the supporter's and one of the supporter's localisations make it.
proof fn lemma_joined_types_hold(
    supporter: Supporter,
    kinds: Seq<SupporterType>,
    translatables: Seq<SupporterTranslatable>,
    row: SupporterWithTypeAndTranslatable,
)
    ensures
        joined_types(supporter, kinds, translatables).contains(row) <==> exists|t: int, x: int|
            #![trigger kinds[t], translatables[x]]
            0 <= t < kinds.len() && 0 <= x < translatables.len() && is_of_type(supporter, kinds[t])
                && translates(translatables[x], supporter) && row == joined_row(
                supporter,
                kinds[t],
                translatables[x],
            ),
    decreases kinds.len(),
{
    if kinds.len() > 0 {
        let front = kinds.drop_last();
        let last = kinds.last();
        let before = joined_types(supporter, front, translatables);
        let added = joined_translatables(supporter, last, translatables);
        let all = joined_types(supporter, kinds, translatables);
        lemma_joined_types_hold(supporter, front, translatables, row);
        lemma_joined_translatables_hold(supporter, last, translatables, row);
        if all.contains(row) {
            let at = choose|at: int| 0 <= at < all.len() && all[at] == row;
            if at < before.len() {
                assert(before[at] == row);
                assert(before.contains(row));
                let (t, x) = choose|t: int, x: int|
                    #![trigger front[t], translatables[x]]
                    0 <= t < front.len() && 0 <= x < translatables.len() && is_of_type(
                        supporter,
                        front[t],
                    ) && translates(translatables[x], supporter) && row == joined_row(
                        supporter,
                        front[t],
                        translatables[x],
                    );
                assert(kinds[t] == front[t]);
            } else {
                assert(is_of_type(supporter, last));
                assert(added[at - before.len()] == row);
                assert(added.contains(row));
                let x = choose|x: int|
                    0 <= x < translatables.len() && translates(
                        #[trigger] translatables[x],
                        supporter,
                    ) && row == joined_row(supporter, last, translatables[x]);
                assert(kinds[kinds.len() - 1] == last);
            }
        }
        if exists|t: int, x: int|
            #![trigger kinds[t], translatables[x]]
            0 <= t < kinds.len() && 0 <= x < translatables.len() && is_of_type(supporter, kinds[t])
                && translates(translatables[x], supporter) && row == joined_row(
                supporter,
                kinds[t],
                translatables[x],
            ) {
            let (t, x) = choose|t: int, x: int|
                #![trigger kinds[t], translatables[x]]
                0 <= t < kinds.len() && 0 <= x < translatables.len() && is_of_type(
                    supporter,
                    kinds[t],
                ) && translates(translatables[x], supporter) && row == joined_row(
                    supporter,
                    kinds[t],
                    translatables[x],
                );
            if t < front.len() {
                assert(front[t] == kinds[t]);
                assert(before.contains(row));
                let at = choose|at: int| 0 <= at < before.len() && before[at] == row;
                assert(all[at] == row);
            } else {
                assert(translates(translatables[x], supporter));
                assert(added.contains(row));
                let at = choose|at: int| 0 <= at < added.len() && added[at] == row;
                assert(all[before.len() + at] == row);
            }
        }
    }
}

/// The join holds a row exactly when a supporter, a kind that is the
/// supporter's and a localisation that is the supporter's make it.
pub proof fn lemma_joined_supporters_hold(
    supporters: Seq<Supporter>,
    kinds: Seq<SupporterType>,
    translatables: Seq<SupporterTranslatable>,
    row: SupporterWithTypeAndTranslatable,
)
    ensures
        joined_supporters(supporters, kinds, translatables).contains(row) <==> exists|
            s: int,
            t: int,
            x: int,
        | #[trigger] is_joined_from(row, supporters, kinds, translatables, s, t, x),
    decreases supporters.len(),
{
    if supporters.len() > 0 {
        let front = supporters.drop_last();
        let last = supporters.last();
        let before = joined_supporters(front, kinds, translatables);
        let added = joined_types(last, kinds, translatables);
        let all = joined_supporters(supporters, kinds, translatables);
        lemma_joined_supporters_hold(front, kinds, translatables, row);
        lemma_joined_types_hold(last, kinds, translatables, row);
        if all.contains(row) {
            let at = choose|at: int| 0 <= at < all.len() && all[at] == row;
            if at < before.len() {
                assert(before[at] == row);
                assert(before.contains(row));
                let (s, t, x) = choose|s: int, t: int, x: int| #[trigger]
                    is_joined_from(row, front, kinds, translatables, s, t, x);
                assert(supporters[s] == front[s]);
                assert(is_joined_from(row, supporters, kinds, translatables, s, t, x));
            } else {
                assert(added[at - before.len()] == row);
                assert(added.contains(row));
                let (t, x) = choose|t: int, x: int|
                    #![trigger kinds[t], translatables[x]]
                    0 <= t < kinds.len() && 0 <= x < translatables.len() && is_of_type(
                        last,
                        kinds[t],
                    ) && translates(translatables[x], last) && row == joined_row(
                        last,
                        kinds[t],
                        translatables[x],
                    );
                assert(is_joined_from(
                    row,
                    supporters,
                    kinds,
                    translatables,
                    supporters.len() - 1,
                    t,
                    x,
                ));
            }
        }
        if exists|s: int, t: int, x: int| #[trigger]
            is_joined_from(row, supporters, kinds, translatables, s, t, x) {
            let (s, t, x) = choose|s: int, t: int, x: int| #[trigger]
                is_joined_from(row, supporters, kinds, translatables, s, t, x);
            if s < front.len() {
                assert(front[s] == supporters[s]);
                assert(is_joined_from(row, front, kinds, translatables, s, t, x));
                assert(before.contains(row));
                let at = choose|at: int| 0 <= at < before.len() && before[at] == row;
                assert(all[at] == row);
            } else {
                assert(is_of_type(last, kinds[t]) && translates(translatables[x], last));
                assert(added.contains(row));
                let at = choose|at: int| 0 <= at < added.len() && added[at] == row;
                assert(all[before.len() + at] == row);
            }
        }
    } else {
        assert(!joined_supporters(supporters, kinds, translatables).contains(row));
        assert forall|s: int, t: int, x: int|
            !#[trigger] is_joined_from(row, supporters, kinds, translatables, s, t, x) by {}
    }
}

} // verus!
