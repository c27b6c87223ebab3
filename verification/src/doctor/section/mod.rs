//! One section of the health report.

pub mod android;
pub mod cargo_mobile;
pub mod device_list;

use vstd::prelude::*;
use vstd::string::*;

verus! {

/// One line of a section: something that is in order, or something that
/// is not.
#[derive(Debug)]
pub enum Item {
    Victory(String),
    Failure(String),
}

pub enum ItemView {
    Victory(Seq<char>),
    Failure(Seq<char>),
}

impl View for Item {
    type V = ItemView;

    open spec fn view(&self) -> ItemView {
        match self {
            Item::Victory(s) => ItemView::Victory(s@),
            Item::Failure(s) => ItemView::Failure(s@),
        }
    }
}

/// The item that a result stands for.
pub open spec fn item_of(result: Result<String, String>) -> ItemView {
    match result {
        Ok(s) => ItemView::Victory(s@),
        Err(s) => ItemView::Failure(s@),
    }
}

impl Item {
    pub fn from_result(result: Result<String, String>) -> (r: Self)
        ensures
            r@ == item_of(result),
    {
        match result {
            Ok(s) => Item::Victory(s),
            Err(s) => Item::Failure(s),
        }
    }

    pub fn is_failure(&self) -> (r: bool)
        ensures
            r == self@ is Failure,
    {
        match self {
            Item::Failure(_) => true,
            Item::Victory(_) => false,
        }
    }
}

/// A section of the health report: a title and its items.
#[derive(Debug)]
pub struct Section {
    pub title: String,
    pub items: Vec<Item>,
}

pub struct SectionView {
    pub title: Seq<char>,
    pub items: Seq<ItemView>,
}

pub open spec fn items_view(items: Seq<Item>) -> Seq<ItemView> {
    items.map_values(|i: Item| i@)
}

impl View for Section {
    type V = SectionView;

    open spec fn view(&self) -> SectionView {
        SectionView { title: self.title@, items: items_view(self.items@) }
    }
}

impl SectionView {
    pub open spec fn with(self, item: ItemView) -> SectionView {
        SectionView { title: self.title, items: self.items.push(item) }
    }

    pub open spec fn with_all(self, victories: Seq<Seq<char>>) -> SectionView {
        SectionView {
            title: self.title,
            items: self.items + victories.map_values(|v: Seq<char>| ItemView::Victory(v)),
        }
    }
}

impl Section {
    pub fn new(title: String) -> (r: Self)
        ensures
            r@ == (SectionView { title: title@, items: Seq::<ItemView>::empty() }),
    {
        let r = Self { title, items: Vec::new() };
        proof {
            assert(r@.items =~= Seq::<ItemView>::empty());
        }
        r
    }

    fn push(self, item: Item) -> (r: Self)
        ensures
            r@ == self@.with(item@),
    {
        let ghost before = self@.items;
        let mut items = self.items;
        items.push(item);
        proof {
            assert(items_view(items@) =~= before.push(item@));
        }
        Self { title: self.title, items }
    }

    pub fn with_item(self, item: Result<String, String>) -> (r: Self)
        ensures
            r@ == self@.with(item_of(item)),
    {
        self.push(Item::from_result(item))
    }

    pub fn with_victory(self, victory: String) -> (r: Self)
        ensures
            r@ == self@.with(ItemView::Victory(victory@)),
    {
        self.push(Item::Victory(victory))
    }

    pub fn with_failure(self, failure: String) -> (r: Self)
        ensures
            r@ == self@.with(ItemView::Failure(failure@)),
    {
        self.push(Item::Failure(failure))
    }

    pub fn with_victories(self, victories: Vec<String>) -> (r: Self)
        ensures
            r@ == self@.with_all(victories.deep_view()),
    {
        let ghost start = self@;
        let ghost wanted = victories.deep_view().map_values(|v: Seq<char>| ItemView::Victory(v));
        let mut section = self;
        let mut i: usize = 0;
        while i < victories.len()
            invariant
                i <= victories.len(),
                wanted == victories.deep_view().map_values(|v: Seq<char>| ItemView::Victory(v)),
                section@.title == start.title,
                section@.items == start.items + wanted.take(i as int),
            decreases victories.len() - i,
        {
            section = section.with_victory(victories[i].clone());
            i += 1;
        }
        proof {
            assert(wanted.take(victories.len() as int) =~= wanted);
        }
        section
    }

    pub fn is_empty(&self) -> (r: bool)
        ensures
            r == (self@.items.len() == 0),
    {
        self.items.len() == 0
    }

    /// Whether an item of the section is a failure.
    pub fn has_failure(&self) -> (r: bool)
        ensures
            r == exists|i: int| 0 <= i < self@.items.len() && self@.items[i] is Failure,
    {
        let mut i: usize = 0;
        while i < self.items.len()
            invariant
                i <= self.items.len(),
                forall|j: int| 0 <= j < i ==> !(self@.items[j] is Failure),
            decreases self.items.len() - i,
        {
            proof {
                assert(self@.items[i as int] == self.items[i as int]@);
            }
            if self.items[i].is_failure() {
                return true;
            }
            i += 1;
        }
        false
    }
}

} // verus!
