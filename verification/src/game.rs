pub mod economy;
pub mod placement;
pub mod roll;
pub mod wave;

use vstd::prelude::*;
use rand::Rng;

verus! {

/// The phase a round of the game is in. Play cycles through buying dice,
/// rolling them, placing the towers they granted, and surviving a wave.
#[derive(Clone, Copy, PartialEq, Eq, Structural, Debug, Hash)]
pub enum GamePlayState {
    Economy,
    Rolling,
    Placement,
    Wave,
}

/// The element a die face or a tower is aligned with.
#[derive(Clone, Copy, PartialEq, Eq, Structural, Debug, Hash)]
pub enum BaseElementType {
    Neutral,
    Fire,
    Water,
    Earth,
    Wind,
}

/// The name the game shows for an element.
pub open spec fn element_label(t: BaseElementType) -> Seq<char> {
    match t {
        BaseElementType::Neutral => "None"@,
        BaseElementType::Fire => "Fire"@,
        BaseElementType::Water => "Water"@,
        BaseElementType::Earth => "Earth"@,
        BaseElementType::Wind => "Wind"@,
    }
}

impl BaseElementType {
    /// The name the game shows for this element.
    pub fn label(&self) -> (r: &'static str)
        ensures
            r@ == element_label(*self),
    {
        match self {
            BaseElementType::Neutral => "None",
            BaseElementType::Fire => "Fire",
            BaseElementType::Water => "Water",
            BaseElementType::Earth => "Earth",
            BaseElementType::Wind => "Wind",
        }
    }
}

/// How rare a die face is.
#[derive(Clone, Copy, PartialEq, Eq, Structural, Debug, Hash)]
pub enum Rarity {
    Common,
    Uncommon,
    Rare,
    Epic,
    Unique,
}

/// Relies on `rand::thread_rng` and `rand::Rng::gen_range`: a uniform
/// sample from `0..n`, which is a non-empty range since `n >= 1`, so the
/// call neither panics nor returns a value outside it.
#[verifier::external_body]
pub(crate) fn random_below(n: usize) -> (r: usize)
    requires
        1 <= n,
    ensures
        r < n,
{
    rand::thread_rng().gen_range(0..n)
}

/// One face of a die: the element it grants and how rare it is.
#[derive(Clone, Copy, PartialEq, Eq, Structural, Debug)]
pub struct DieFace {
    pub primary_type: BaseElementType,
    pub rarity: Rarity,
}

impl DieFace {
    /// A face shows the name of its element.
    pub fn label(&self) -> (r: &'static str)
        ensures
            r@ == element_label(self.primary_type),
    {
        self.primary_type.label()
    }
}

/// The line the game shows for a die: its six face labels, joined by
/// commas behind a fixed heading.
pub open spec fn die_label(d: Die) -> Seq<char> {
    "Die with faces: "@ + element_label(d.faces[0].primary_type) + ","@ + element_label(
        d.faces[1].primary_type,
    ) + ","@ + element_label(d.faces[2].primary_type) + ","@ + element_label(
        d.faces[3].primary_type,
    ) + ","@ + element_label(d.faces[4].primary_type) + ","@ + element_label(
        d.faces[5].primary_type,
    )
}

/// A six-sided die and its current price in the shop.
#[derive(Clone, Copy, PartialEq, Eq, Debug)]
pub struct Die {
    pub faces: [DieFace; 6],
    pub value: usize,
}

impl Die {
    /// Roll the die: every outcome is one of its six faces.
    pub fn roll(&self) -> (f: DieFace)
        ensures
            exists|i: int| 0 <= i < 6 && f == self.faces[i],
    {
        let face: usize = random_below(6);
        let f = self.faces[face];
        proof {
            assert(f == self.faces[face as int]);
        }
        f
    }

    /// The line the game shows for this die.
    pub fn label(&self) -> (r: String)
        ensures
            r@ == die_label(*self),
    {
        let mut s = String::from_str("Die with faces: ");
        s.append(self.faces[0].label());
        s.append(",");
        s.append(self.faces[1].label());
        s.append(",");
        s.append(self.faces[2].label());
        s.append(",");
        s.append(self.faces[3].label());
        s.append(",");
        s.append(self.faces[4].label());
        s.append(",");
        s.append(self.faces[5].label());
        proof {
            assert(s@ =~= die_label(*self));
        }
        s
    }
}

/// Builds a die face by face before pricing it.
pub struct DieBuilder {
    pub faces: [DieFace; 6],
}

impl DieBuilder {
    /// A die devoted to one element: all six faces share it, at common rarity.
    pub fn from_type(selected_type: BaseElementType) -> (b: Self)
        ensures
            forall|i: int|
                0 <= i < 6 ==> b.faces[i] == (DieFace {
                    primary_type: selected_type,
                    rarity: Rarity::Common,
                }),
    {
        let face = DieFace { primary_type: selected_type, rarity: Rarity::Common };
        DieBuilder { faces: [face, face, face, face, face, face] }
    }

    /// Price the die and put it up for sale.
    pub fn build(self) -> (d: Die)
        ensures
            d.faces == self.faces,
            d.value == 10,
    {
        Die { faces: self.faces, value: 10 }
    }
}

/// The dice a player has bought and not yet rolled, with a highlight
/// cursor over one of them.
#[derive(Clone, Debug)]
pub struct DiePool {
    pub dice: Vec<Die>,
    pub highlighted: usize,
}

impl DiePool {
    /// The highlight stays inside the pool; an empty pool parks it at zero.
    pub open spec fn wf(self) -> bool {
        if self.dice@.len() == 0 {
            self.highlighted == 0
        } else {
            self.highlighted < self.dice@.len()
        }
    }

    pub fn new() -> (p: Self)
        ensures
            p.dice@.len() == 0,
            p.highlighted == 0,
            p.wf(),
    {
        DiePool { dice: Vec::new(), highlighted: 0 }
    }

    /// A purchased die joins the pool.
    pub fn add_die(&mut self, die: Die)
        requires
            old(self).wf(),
        ensures
            final(self).dice@ == old(self).dice@.push(die),
            final(self).highlighted == old(self).highlighted,
            final(self).wf(),
    {
        self.dice.push(die);
    }

    /// Move the highlight one die to the left, wrapping around.
    pub fn highlight_left(&mut self)
        requires
            old(self).wf(),
            old(self).dice@.len() > 0,
            old(self).highlighted + old(self).dice@.len() <= usize::MAX,
        ensures
            final(self).dice@ == old(self).dice@,
            final(self).highlighted == (old(self).highlighted + old(self).dice@.len() - 1) % (
            old(self).dice@.len() as int),
            final(self).wf(),
    {
        self.highlighted = (self.highlighted + self.dice.len() - 1) % self.dice.len();
    }

    /// Move the highlight one die to the right, wrapping around.
    pub fn highlight_right(&mut self)
        requires
            old(self).wf(),
            old(self).dice@.len() > 0,
        ensures
            final(self).dice@ == old(self).dice@,
            final(self).highlighted == (old(self).highlighted + 1) % (old(self).dice@.len() as int),
            final(self).wf(),
    {
        let n: usize = self.dice.len();
        self.highlighted = (self.highlighted + 1) % n;
    }

    /// Take the highlighted die out of the pool and roll it. The result is
    /// one of that die's faces; the highlight returns to the front.
    pub fn roll(&mut self) -> (f: DieFace)
        requires
            old(self).wf(),
            old(self).dice@.len() > 0,
        ensures
            final(self).dice@ == old(self).dice@.remove(old(self).highlighted as int),
            final(self).highlighted == 0,
            exists|i: int|
                0 <= i < 6 && f == old(self).dice@[old(self).highlighted as int].faces[i],
            final(self).wf(),
    {
        let idx: usize = self.highlighted;
        let die = self.dice.remove(idx);
        self.highlighted = 0;
        die.roll()
    }
}

/// A tower kind as the game's data files describe it, reduced to what the
/// rules read: its name, its shop cost and its element. The catalog of all
/// kinds is a vector, and towers are referred to by their index in it.
#[derive(Clone, Debug)]
pub struct TowerDetails {
    pub name: String,
    pub cost: u32,
    pub element_type: BaseElementType,
}

/// The tower kinds the player has won by rolling dice and may still place,
/// as indices into the catalog, with a highlight cursor over one of them.
#[derive(Debug)]
pub struct TowerPool {
    pub towers: Vec<usize>,
    pub highlighted: usize,
}

impl TowerPool {
    /// The highlight stays inside the pool; an empty pool parks it at zero.
    pub open spec fn wf(self) -> bool {
        if self.towers@.len() == 0 {
            self.highlighted == 0
        } else {
            self.highlighted < self.towers@.len()
        }
    }

    /// Every entry points into a catalog of `catalog_len` tower kinds.
    pub open spec fn in_catalog(self, catalog_len: int) -> bool {
        forall|k: int| 0 <= k < self.towers@.len() ==> self.towers@[k] < catalog_len
    }

    pub fn new() -> (p: Self)
        ensures
            p.towers@.len() == 0,
            p.highlighted == 0,
            p.wf(),
    {
        TowerPool { towers: Vec::new(), highlighted: 0 }
    }

    /// Move the highlight to the next tower, wrapping around; with nothing
    /// in the pool nothing changes.
    pub fn toggle_highlighted(&mut self)
        requires
            old(self).wf(),
        ensures
            final(self).towers@ == old(self).towers@,
            final(self).highlighted == if old(self).towers@.len() == 0 {
                old(self).highlighted as int
            } else {
                (old(self).highlighted + 1) % (old(self).towers@.len() as int)
            },
            final(self).wf(),
    {
        if self.towers.is_empty() {
            return ;
        }
        let n: usize = self.towers.len();
        self.highlighted = (self.highlighted + 1) % n;
    }

    /// A tower granted by a die roll joins the pool.
    pub fn add_tower(&mut self, id: usize)
        requires
            old(self).wf(),
        ensures
            final(self).towers@ == old(self).towers@.push(id),
            final(self).highlighted == old(self).highlighted,
            final(self).wf(),
    {
        self.towers.push(id);
    }

    /// Take the highlighted tower out of the pool to place it. If the
    /// highlight would be left past the end it returns to the front.
    pub fn take_highlighted(&mut self) -> (id: usize)
        requires
            old(self).wf(),
            old(self).towers@.len() > 0,
        ensures
            id == old(self).towers@[old(self).highlighted as int],
            final(self).towers@ == old(self).towers@.remove(old(self).highlighted as int),
            final(self).highlighted == if old(self).highlighted < old(self).towers@.len() - 1 {
                old(self).highlighted as int
            } else {
                0
            },
            final(self).wf(),
    {
        let idx: usize = self.highlighted;
        let id: usize = self.towers.remove(idx);
        if self.highlighted >= self.towers.len() {
            self.highlighted = 0;
        }
        id
    }
}

/// Pick, uniformly at random, one tower kind of the given element from the
/// catalog. Returns `None` exactly when no kind has that element.
pub fn select_tower(catalog: &Vec<TowerDetails>, selected_type: BaseElementType) -> (r: Option<
    usize,
>)
    ensures
        r is Some <==> exists|j: int|
            0 <= j < catalog@.len() && catalog@[j].element_type == selected_type,
        r matches Some(id) ==> id < catalog@.len() && catalog@[id as int].element_type
            == selected_type,
{
    let mut matching: Vec<usize> = Vec::new();
    let mut i: usize = 0;
    while i < catalog.len()
        invariant
            i <= catalog@.len(),
            forall|k: int|
                0 <= k < matching@.len() ==> matching@[k] < catalog@.len() && catalog@[matching@[k] as int].element_type
                    == selected_type,
            (exists|j: int| 0 <= j < i && catalog@[j].element_type == selected_type)
                <==> matching@.len() > 0,
        decreases catalog@.len() - i,
    {
        if catalog[i].element_type == selected_type {
            matching.push(i);
        }
        i += 1;
    }
    if matching.len() == 0 {
        None
    } else {
        let k: usize = random_below(matching.len());
        let id: usize = matching[k];
        proof {
            assert(catalog@[matching@[k as int] as int].element_type == selected_type);
        }
        Some(id)
    }
}

/// A rolled face grants a random tower of the face's element: pick one
/// from the catalog and add it to the pool. With no kind of that element
/// in the catalog the roll grants nothing.
pub fn die_rolled(face: &DieFace, catalog: &Vec<TowerDetails>, pool: &mut TowerPool) -> (added:
    Option<usize>)
    requires
        old(pool).wf(),
    ensures
        added is Some <==> exists|j: int|
            0 <= j < catalog@.len() && catalog@[j].element_type == face.primary_type,
        match added {
            Some(id) => {
                &&& id < catalog@.len()
                &&& catalog@[id as int].element_type == face.primary_type
                &&& final(pool).towers@ == old(pool).towers@.push(id)
                &&& final(pool).highlighted == old(pool).highlighted
            },
            None => *final(pool) == *old(pool),
        },
        final(pool).wf(),
{
    match select_tower(catalog, face.primary_type) {
        Some(id) => {
            pool.add_tower(id);
            Some(id)
        },
        None => None,
    }
}

} // verus!
