//! Popup menus.
use vstd::prelude::*;

verus! {

/// An entry of a menu.
pub enum MenuItem {
    Separator,
    /// Something to choose. An item without a label is drawn by the painter.
    Item { label: Option<String>, action: u64, disabled: bool, checked: bool },
}

pub struct PopupMenu {
    /// Whether its items are as high as a finger needs them.
    pub touch: bool,
    pub items: Vec<MenuItem>,
    pub selected: Option<usize>,
}

/// Whether separators separate: none comes first, and none follows another.
pub open spec fn tidy(items: Seq<MenuItem>) -> bool {
    &&& items.len() > 0 ==> !(items[0] is Separator)
    &&& forall|i: int|
        0 < i < items.len() && #[trigger] items[i] is Separator ==> !(items[i - 1] is Separator)
}

pub open spec fn enabled(item: MenuItem) -> bool {
    match item {
        MenuItem::Item { disabled, .. } => !disabled,
        MenuItem::Separator => false,
    }
}

/// The places of the first `n` items that can be chosen.
pub open spec fn choices(items: Seq<MenuItem>, n: int) -> Seq<int>
    decreases n,
{
    if n <= 0 {
        Seq::empty()
    } else if enabled(items[n - 1]) {
        choices(items, n - 1).push(n - 1)
    } else {
        choices(items, n - 1)
    }
}

/// The place of a choice among the choices.
pub open spec fn rank(all: Seq<int>, selected: Option<usize>) -> Option<int> {
    match selected {
        Some(at) => if all.contains(at as int) {
            Some(choose|i: int| 0 <= i < all.len() && #[trigger] all[i] == at)
        } else {
            None
        },
        None => None,
    }
}

/// The choice above the selected one, the last one above the first.
pub open spec fn above(all: Seq<int>, selected: Option<usize>) -> int {
    match rank(all, selected) {
        Some(i) => all[(i + all.len() - 1) % all.len() as int],
        None => all[all.len() - 1],
    }
}

/// The choice below the selected one, the first one below the last.
pub open spec fn below(all: Seq<int>, selected: Option<usize>) -> int {
    match rank(all, selected) {
        Some(i) => all[(i + 1) % all.len() as int],
        None => all[0],
    }
}

proof fn lemma_choices(items: Seq<MenuItem>, n: int)
    requires
        0 <= n <= items.len(),
    ensures
        choices(items, n).len() <= n,
        forall|i: int|
            0 <= i < choices(items, n).len() ==> 0 <= #[trigger] choices(items, n)[i] < n
                && enabled(items[choices(items, n)[i]]),
        forall|i: int, j: int|
            0 <= i < j < choices(items, n).len() ==> #[trigger] choices(items, n)[i]
                < #[trigger] choices(items, n)[j],
        forall|at: int|
            0 <= at < n && enabled(#[trigger] items[at]) ==> choices(items, n).contains(at),
    decreases n,
{
    if n > 0 {
        lemma_choices(items, n - 1);
        let before = choices(items, n - 1);
        let after = choices(items, n);
        assert forall|at: int| 0 <= at < n && enabled(#[trigger] items[at]) implies after.contains(
            at,
        ) by {
            if at == n - 1 {
                assert(after[after.len() - 1] == at);
            } else {
                let i = choose|i: int| 0 <= i < before.len() && before[i] == at;
                assert(after[i] == at);
            }
        }
    }
}

proof fn lemma_rank(items: Seq<MenuItem>, i: int, at: usize)
    requires
        0 <= i < choices(items, items.len() as int).len(),
        choices(items, items.len() as int)[i] == at,
    ensures
        rank(choices(items, items.len() as int), Some(at)) == Some(i),
{
    let all = choices(items, items.len() as int);
    lemma_choices(items, items.len() as int);
    let found = choose|k: int| 0 <= k < all.len() && #[trigger] all[k] == at;
    if found < i {
        assert(all[found] < all[i]);
    } else if i < found {
        assert(all[i] < all[found]);
    }
}

/// What choosing does: an action is dispatched, and the menu goes away.
#[derive(Clone, Copy, Debug, PartialEq, Eq, Structural)]
pub enum MenuOutcome {
    Nothing,
    /// Dispatch an action and dismiss the menu.
    Dispatch(u64),
    Dismiss,
    Notify,
}

pub open spec fn chosen(items: Seq<MenuItem>, index: usize) -> MenuOutcome {
    if index < items.len() {
        match items[index as int] {
            MenuItem::Item { action, disabled, .. } => if disabled {
                MenuOutcome::Nothing
            } else {
                MenuOutcome::Dispatch(action)
            },
            MenuItem::Separator => MenuOutcome::Nothing,
        }
    } else {
        MenuOutcome::Nothing
    }
}

impl PopupMenu {
    pub fn new() -> (menu: Self)
        ensures
            menu.items@.len() == 0,
            !menu.touch,
            menu.selected is None,
            tidy(menu.items@),
    {
        PopupMenu { touch: false, items: Vec::new(), selected: None }
    }

    fn with(self, item: MenuItem) -> (menu: Self)
        requires
            !(item is Separator),
        ensures
            menu.items@ == self.items@.push(item),
            menu.touch == self.touch,
            menu.selected == self.selected,
            tidy(self.items@) ==> tidy(menu.items@),
    {
        let mut menu = self;
        menu.items.push(item);
        proof {
            if tidy(self.items@) {
                assert forall|i: int| 0 < i < menu.items@.len() && #[trigger] menu.items@[i]
                    is Separator implies !(menu.items@[i - 1] is Separator) by {
                    assert(self.items@[i] is Separator);
                }
            }
        }
        menu
    }

    /// Offer something to choose.
    pub fn menu(self, label: String, action: u64) -> (menu: Self)
        ensures
            menu.items@ == self.items@.push(
                MenuItem::Item { label: Some(label), action, disabled: false, checked: false },
            ),
            menu.touch == self.touch,
            menu.selected == self.selected,
            tidy(self.items@) ==> tidy(menu.items@),
    {
        self.menu_with_enable(label, action, true)
    }

    pub fn menu_with_enable(self, label: String, action: u64, enable: bool) -> (menu: Self)
        ensures
            menu.items@ == self.items@.push(
                MenuItem::Item { label: Some(label), action, disabled: !enable, checked: false },
            ),
            menu.touch == self.touch,
            menu.selected == self.selected,
            tidy(self.items@) ==> tidy(menu.items@),
    {
        self.with(MenuItem::Item { label: Some(label), action, disabled: !enable, checked: false })
    }

    pub fn menu_with_check(self, label: String, checked: bool, action: u64) -> (menu: Self)
        ensures
            menu.items@ == self.items@.push(
                MenuItem::Item { label: Some(label), action, disabled: false, checked },
            ),
            menu.touch == self.touch,
            menu.selected == self.selected,
            tidy(self.items@) ==> tidy(menu.items@),
    {
        self.with(MenuItem::Item { label: Some(label), action, disabled: false, checked })
    }

    /// Offer something that the painter draws.
    pub fn menu_element(self, action: u64) -> (menu: Self)
        ensures
            menu.items@ == self.items@.push(
                MenuItem::Item { label: None, action, disabled: false, checked: false },
            ),
            menu.touch == self.touch,
            menu.selected == self.selected,
            tidy(self.items@) ==> tidy(menu.items@),
    {
        self.with(MenuItem::Item { label: None, action, disabled: false, checked: false })
    }

    /// Separate what comes from what is there, where there is something and it is
    /// not separated yet.
    pub fn separator(self) -> (menu: Self)
        ensures
            menu.items@ == if self.items@.len() > 0 && !(self.items@.last() is Separator) {
                self.items@.push(MenuItem::Separator)
            } else {
                self.items@
            },
            menu.touch == self.touch,
            menu.selected == self.selected,
            tidy(self.items@) ==> tidy(menu.items@),
    {
        let mut menu = self;
        let count: usize = menu.items.len();
        if count > 0 {
            let separated = match menu.items[count - 1] {
                MenuItem::Separator => true,
                _ => false,
            };
            if !separated {
                menu.items.push(MenuItem::Separator);
                proof {
                    if tidy(self.items@) {
                        assert forall|i: int| 0 < i < menu.items@.len() && #[trigger] menu.items@[i]
                            is Separator implies !(menu.items@[i - 1] is Separator) by {
                            if i < self.items@.len() {
                                assert(self.items@[i] is Separator);
                            }
                        }
                    }
                }
            }
        }
        menu
    }

    pub fn touch(self, touch: bool) -> (menu: Self)
        ensures
            menu.items == self.items,
            menu.touch == touch,
            menu.selected == self.selected,
    {
        let mut menu = self;
        menu.touch = touch;
        menu
    }

    /// Whether there is nothing to offer, and so nothing to open.
    pub fn is_empty(&self) -> (empty: bool)
        ensures
            empty == (self.items@.len() == 0),
    {
        self.items.len() == 0
    }

    /// The places of the items that can be chosen.
    pub fn clickable(&self) -> (places: Vec<usize>)
        ensures
            places@.len() == choices(self.items@, self.items@.len() as int).len(),
            forall|i: int|
                0 <= i < places@.len() ==> #[trigger] places@[i] == choices(
                    self.items@,
                    self.items@.len() as int,
                )[i],
    {
        let mut places: Vec<usize> = Vec::new();
        let mut i: usize = 0;
        while i < self.items.len()
            invariant
                i <= self.items@.len(),
                places@.len() == choices(self.items@, i as int).len(),
                forall|j: int|
                    0 <= j < places@.len() ==> #[trigger] places@[j] == choices(
                        self.items@,
                        i as int,
                    )[j],
            decreases self.items@.len() - i,
        {
            let choosable = match &self.items[i] {
                MenuItem::Item { disabled, .. } => !*disabled,
                MenuItem::Separator => false,
            };
            if choosable {
                places.push(i);
            }
            i += 1;
        }
        places
    }

    /// Choose an item, where it can be chosen.
    pub fn choose_item(&self, index: usize) -> (outcome: MenuOutcome)
        ensures
            outcome == chosen(self.items@, index),
    {
        if index < self.items.len() {
            match &self.items[index] {
                MenuItem::Item { action, disabled, .. } => if *disabled {
                    MenuOutcome::Nothing
                } else {
                    MenuOutcome::Dispatch(*action)
                },
                MenuItem::Separator => MenuOutcome::Nothing,
            }
        } else {
            MenuOutcome::Nothing
        }
    }

    pub fn cancel(&self) -> (outcome: MenuOutcome)
        ensures
            outcome == MenuOutcome::Dismiss,
    {
        MenuOutcome::Dismiss
    }

    /// Choose the selected item.
    pub fn confirm(&self) -> (outcome: MenuOutcome)
        ensures
            outcome == (match self.selected {
                Some(index) => chosen(self.items@, index),
                None => MenuOutcome::Nothing,
            }),
    {
        match self.selected {
            Some(index) => self.choose_item(index),
            None => MenuOutcome::Nothing,
        }
    }

    /// The place of the selected item among the choices.
    fn selected_rank(&self, places: &Vec<usize>) -> (found: Option<usize>)
        requires
            places@.len() == choices(self.items@, self.items@.len() as int).len(),
            forall|i: int|
                0 <= i < places@.len() ==> #[trigger] places@[i] == choices(
                    self.items@,
                    self.items@.len() as int,
                )[i],
        ensures
            match (found, rank(choices(self.items@, self.items@.len() as int), self.selected)) {
                (Some(i), Some(r)) => i == r && i < places@.len(),
                (None, None) => true,
                _ => false,
            },
    {
        let ghost all = choices(self.items@, self.items@.len() as int);
        match self.selected {
            Some(at) => {
                let mut i: usize = 0;
                while i < places.len()
                    invariant
                        i <= places@.len(),
                        places@.len() == all.len(),
                        all == choices(self.items@, self.items@.len() as int),
                        self.selected == Some(at),
                        forall|j: int| 0 <= j < places@.len() ==> #[trigger] places@[j] == all[j],
                        forall|j: int| 0 <= j < i ==> all[j] != at,
                    decreases places@.len() - i,
                {
                    if places[i] == at {
                        proof {
                            assert(all[i as int] == at);
                            lemma_rank(self.items@, i as int, at);
                        }
                        return Some(i);
                    }
                    assert(places@[i as int] == all[i as int]);
                    i += 1;
                }
                assert(!all.contains(at as int));
                None
            },
            None => None,
        }
    }

    /// Select the choice above, coming round to the last.
    pub fn up(&mut self) -> (outcome: MenuOutcome)
        ensures
            final(self).items == old(self).items,
            final(self).touch == old(self).touch,
            ({
                let all = choices(old(self).items@, old(self).items@.len() as int);
                if all.len() == 0 {
                    outcome == MenuOutcome::Nothing && final(self).selected == old(self).selected
                } else {
                    outcome == MenuOutcome::Notify && (match final(self).selected {
                        Some(at) => at == above(all, old(self).selected),
                        None => false,
                    })
                }
            }),
    {
        let places = self.clickable();
        let count: usize = places.len();
        if count == 0 {
            return MenuOutcome::Nothing;
        }
        let position: usize = match self.selected_rank(&places) {
            Some(i) => i,
            None => 0,
        };
        let next: usize = if position == 0 {
            count - 1
        } else {
            position - 1
        };
        proof {
            let p = position as int;
            let n = count as int;
            if p == 0 {
                assert((p + n - 1) % n == n - 1) by (nonlinear_arith)
                    requires
                        p == 0,
                        n > 0,
                ;
            } else {
                assert((p + n - 1) % n == p - 1) by (nonlinear_arith)
                    requires
                        0 < p < n,
                ;
            }
        }
        self.selected = Some(places[next]);
        MenuOutcome::Notify
    }

    /// Select the choice below, coming round to the first.
    pub fn down(&mut self) -> (outcome: MenuOutcome)
        ensures
            final(self).items == old(self).items,
            final(self).touch == old(self).touch,
            ({
                let all = choices(old(self).items@, old(self).items@.len() as int);
                if all.len() == 0 {
                    outcome == MenuOutcome::Nothing && final(self).selected == old(self).selected
                } else {
                    outcome == MenuOutcome::Notify && (match final(self).selected {
                        Some(at) => at == below(all, old(self).selected),
                        None => false,
                    })
                }
            }),
    {
        let places = self.clickable();
        let count: usize = places.len();
        if count == 0 {
            return MenuOutcome::Nothing;
        }
        let next: usize = match self.selected_rank(&places) {
            Some(i) => if i + 1 == count {
                0
            } else {
                i + 1
            },
            None => 0,
        };
        proof {
            if let Some(r) = rank(
                choices(self.items@, self.items@.len() as int),
                self.selected,
            ) {
                let n = count as int;
                if r + 1 == n {
                    assert((r + 1) % n == 0) by (nonlinear_arith)
                        requires
                            r + 1 == n,
                            n > 0,
                    ;
                } else {
                    assert((r + 1) % n == r + 1) by (nonlinear_arith)
                        requires
                            0 <= r + 1 < n,
                    ;
                }
            }
        }
        self.selected = Some(places[next]);
        MenuOutcome::Notify
    }
}

/// Only what can be chosen is ever selected by the keys.
pub proof fn law_keys_select_what_can_be_chosen(items: Seq<MenuItem>, selected: Option<usize>)
    requires
        choices(items, items.len() as int).len() > 0,
    ensures
        ({
            let all = choices(items, items.len() as int);
            &&& 0 <= above(all, selected) < items.len() && enabled(items[above(all, selected)])
            &&& 0 <= below(all, selected) < items.len() && enabled(items[below(all, selected)])
        }),
{
    let all = choices(items, items.len() as int);
    lemma_choices(items, items.len() as int);
    if let Some(r) = rank(all, selected) {
        let n = all.len() as int;
        let up = (r + n - 1) % n;
        let down = (r + 1) % n;
        assert(0 <= up < n && 0 <= down < n) by (nonlinear_arith)
            requires
                n > 0,
                up == (r + n - 1) % n,
                down == (r + 1) % n,
        ;
        assert(0 <= all[up] < items.len() && enabled(items[all[up]]));
        assert(0 <= all[down] < items.len() && enabled(items[all[down]]));
    } else {
        assert(0 <= all[0] < items.len() && enabled(items[all[0]]));
        assert(0 <= all[all.len() - 1] < items.len() && enabled(items[all[all.len() - 1]]));
    }
}

/// Going down and then up comes back to a choice, round the ends too.
pub proof fn law_up_undoes_down(items: Seq<MenuItem>, selected: usize)
    requires
        selected < items.len(),
        enabled(items[selected as int]),
        items.len() <= usize::MAX,
    ensures
        ({
            let all = choices(items, items.len() as int);
            above(all, Some(below(all, Some(selected)) as usize)) == selected
        }),
{
    let all = choices(items, items.len() as int);
    lemma_choices(items, items.len() as int);
    assert(all.contains(selected as int));
    let i = choose|i: int| 0 <= i < all.len() && #[trigger] all[i] == selected;
    lemma_rank(items, i, selected);
    let n = all.len() as int;
    let down = (i + 1) % n;
    assert(0 <= down < n) by (nonlinear_arith)
        requires
            n > 0,
            down == (i + 1) % n,
    ;
    assert(0 <= all[down] < items.len());
    let next = all[down] as usize;
    lemma_rank(items, down, next);
    if i + 1 == n {
        assert(down == 0) by (nonlinear_arith)
            requires
                i + 1 == n,
                n > 0,
                down == (i + 1) % n,
        ;
        assert((down + n - 1) % n == i) by (nonlinear_arith)
            requires
                down == 0,
                i + 1 == n,
                n > 0,
        ;
    } else {
        assert(down == i + 1) by (nonlinear_arith)
            requires
                0 <= i + 1 < n,
                down == (i + 1) % n,
        ;
        assert((down + n - 1) % n == i) by (nonlinear_arith)
            requires
                down == i + 1,
                0 <= i < n,
                n > 0,
        ;
    }
}

} // verus!
