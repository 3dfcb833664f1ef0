//! The mini-game's crafting and resource model.
//!
//! A component is one of three colors (cost 1) or five skill kinds (cost 2).
//! A fixed recipe table maps an exact multiset of components to a named
//! skill: lookup is exact multiset equality, never superset or subset
//! matching, and every skill-kind component is its own one-item recipe. The
//! multiset itself is an outside bag collection, reached through trusted
//! declarations; components are stored in it by their numeric codes.

use vstd::prelude::*;
use vstd::multiset::Multiset;

verus! {

broadcast use vstd::multiset::group_multiset_axioms;

/// A mini-game resource primitive: a color or a skill kind.
#[derive(Clone, Copy, PartialEq, Eq, Structural, Debug)]
pub enum Component {
    Red,
    Green,
    Blue,
    Attack,
    Block,
    Buff,
    Debuff,
    Stun,
}

/// The outside bag collection that carries component multisets.
#[verifier::external_type_specification]
#[verifier::external_body]
#[verifier::reject_recursive_types(T)]
#[verifier::reject_recursive_types(S)]
pub struct ExHashBag<T, S>(hashbag::HashBag<T, S>);

/// What a bag of component codes holds, as a multiset.
pub uninterp spec fn bag_elems(b: hashbag::HashBag<u8>) -> Multiset<u8>;

/// Relies on hashbag's `HashBag::new`: a newly created bag is empty.
#[verifier::external_body]
fn bag_new() -> (r: hashbag::HashBag<u8>)
    ensures
        bag_elems(r) == Multiset::<u8>::empty(),
{
    hashbag::HashBag::new()
}

/// Relies on hashbag's `HashBag::insert`: one more occurrence of the value
/// is added to the bag.
#[verifier::external_body]
fn bag_insert(b: &mut hashbag::HashBag<u8>, value: u8)
    requires
        bag_elems(*old(b)).len() < usize::MAX,
    ensures
        bag_elems(*final(b)) == bag_elems(*old(b)).insert(value),
{
    b.insert(value);
}

/// Relies on hashbag's `PartialEq`: two bags are equal exactly when they
/// hold the same values with the same multiplicities.
#[verifier::external_body]
fn bag_eq(a: &hashbag::HashBag<u8>, b: &hashbag::HashBag<u8>) -> (r: bool)
    ensures
        r == (bag_elems(*a) == bag_elems(*b)),
{
    a == b
}

impl Component {
    /// The numeric code a component is stored under in a bag.
    pub open spec fn code_spec(self) -> u8 {
        match self {
            Component::Red => 0u8,
            Component::Green => 1u8,
            Component::Blue => 2u8,
            Component::Attack => 3u8,
            Component::Block => 4u8,
            Component::Buff => 5u8,
            Component::Debuff => 6u8,
            Component::Stun => 7u8,
        }
    }

    /// The numeric code a component is stored under in a bag.
    pub fn code(&self) -> (r: u8)
        ensures
            r == self.code_spec(),
    {
        match self {
            Component::Red => 0,
            Component::Green => 1,
            Component::Blue => 2,
            Component::Attack => 3,
            Component::Block => 4,
            Component::Buff => 5,
            Component::Debuff => 6,
            Component::Stun => 7,
        }
    }

    /// Whether this component is one of the three colors.
    pub open spec fn is_color_spec(self) -> bool {
        self is Red || self is Green || self is Blue
    }

    /// Whether this component is one of the three colors.
    pub fn is_color(&self) -> (r: bool)
        ensures
            r == self.is_color_spec(),
    {
        match self {
            Component::Red => true,
            Component::Green => true,
            Component::Blue => true,
            _ => false,
        }
    }

    /// A component's cost in bits: 1 for a color, 2 for a skill kind.
    pub open spec fn cost_spec(self) -> i32 {
        if self.is_color_spec() {
            1
        } else {
            2
        }
    }

    /// A component's cost in bits: 1 for a color, 2 for a skill kind.
    pub fn get_cost(&self) -> (r: i32)
        ensures
            r == self.cost_spec(),
    {
        if self.is_color() {
            1
        } else {
            2
        }
    }

    /// The component's display name.
    pub open spec fn name_chars(self) -> Seq<char> {
        match self {
            Component::Red => "Red"@,
            Component::Green => "Green"@,
            Component::Blue => "Blue"@,
            Component::Attack => "Attack"@,
            Component::Block => "Block"@,
            Component::Buff => "Buff"@,
            Component::Debuff => "Debuff"@,
            Component::Stun => "Stun"@,
        }
    }

    /// The component's display name.
    pub fn to_string(&self) -> (r: String)
        ensures
            r@ == self.name_chars(),
    {
        match self {
            Component::Red => "Red".to_owned(),
            Component::Green => "Green".to_owned(),
            Component::Blue => "Blue".to_owned(),
            Component::Attack => "Attack".to_owned(),
            Component::Block => "Block".to_owned(),
            Component::Buff => "Buff".to_owned(),
            Component::Debuff => "Debuff".to_owned(),
            Component::Stun => "Stun".to_owned(),
        }
    }

    /// The recipe-table index of a skill-kind component.
    pub open spec fn skill_index(self) -> int
        recommends
            !self.is_color_spec(),
    {
        match self {
            Component::Attack => 0,
            Component::Block => 1,
            Component::Buff => 2,
            Component::Debuff => 3,
            _ => 4,
        }
    }

    /// The component's description: a fixed string for a color, the
    /// component's own one-item recipe's description for a skill kind.
    pub open spec fn description_chars(self) -> Seq<char> {
        match self {
            Component::Red => "Fast speed, physical type. Chaos and momentum."@,
            Component::Green => "Normal speed, healing type. Protection and trickery."@,
            Component::Blue => "Slow speed, magical type. Deterrents and destruction."@,
            _ => recipe_desc_chars(self.skill_index()),
        }
    }
}

/// How many recipes the fixed table holds.
pub open spec fn recipe_count() -> int {
    5
}

/// The single component of the recipe at an index.
pub open spec fn recipe_component(i: int) -> Component
    recommends
        0 <= i < recipe_count(),
{
    if i == 0 {
        Component::Attack
    } else if i == 1 {
        Component::Block
    } else if i == 2 {
        Component::Buff
    } else if i == 3 {
        Component::Debuff
    } else {
        Component::Stun
    }
}

/// The exact component multiset of the recipe at an index.
pub open spec fn recipe_elems(i: int) -> Multiset<u8>
    recommends
        0 <= i < recipe_count(),
{
    Multiset::<u8>::empty().insert(recipe_component(i).code_spec())
}

/// The name of the recipe at an index.
pub open spec fn recipe_name_chars(i: int) -> Seq<char>
    recommends
        0 <= i < recipe_count(),
{
    recipe_component(i).name_chars()
}

/// The description of the recipe at an index.
pub open spec fn recipe_desc_chars(i: int) -> Seq<char>
    recommends
        0 <= i < recipe_count(),
{
    if i == 0 {
        "Deal 80% of Red power as Red damage"@
    } else if i == 1 {
        "no idea tbh"@
    } else if i == 2 {
        "no idea tbh 2"@
    } else if i == 3 {
        "no idea tbh 3"@
    } else {
        "no idea tbh 4"@
    }
}

/// Distinct recipes hold distinct multisets.
pub proof fn lemma_recipe_elems_injective(i: int, j: int)
    requires
        0 <= i < recipe_count(),
        0 <= j < recipe_count(),
        recipe_elems(i) == recipe_elems(j),
    ensures
        i == j,
{
    let ci = recipe_component(i).code_spec();
    let cj = recipe_component(j).code_spec();
    assert(recipe_elems(i).count(ci) == 1);
    if ci != cj {
        assert(recipe_elems(j).count(ci) == 0);
    }
}

/// A named skill: what crafting an exact component multiset yields.
pub struct Skill {
    /// The skill's name.
    pub name: String,
    /// The skill's human-readable description.
    pub description: String,
    /// The exact multiset of components that crafts it.
    pub components: hashbag::HashBag<u8>,
}

/// A skill equal to the recipe table's entry at an index.
pub open spec fn recipe_wf(s: Skill, i: int) -> bool {
    &&& s.name@ == recipe_name_chars(i)
    &&& s.description@ == recipe_desc_chars(i)
    &&& bag_elems(s.components) == recipe_elems(i)
}

fn singleton_bag(code: u8) -> (r: hashbag::HashBag<u8>)
    ensures
        bag_elems(r) == Multiset::<u8>::empty().insert(code),
{
    let mut bag = bag_new();
    bag_insert(&mut bag, code);
    bag
}

impl Skill {
    /// The fixed recipe table, in order.
    pub fn get_all_recipes() -> (r: Vec<Skill>)
        ensures
            r@.len() == recipe_count(),
            forall|i: int| 0 <= i < recipe_count() ==> recipe_wf(#[trigger] r@[i], i),
    {
        let mut recipes: Vec<Skill> = Vec::new();
        recipes.push(
            Skill {
                name: "Attack".to_owned(),
                description: "Deal 80% of Red power as Red damage".to_owned(),
                components: singleton_bag(Component::Attack.code()),
            },
        );
        recipes.push(
            Skill {
                name: "Block".to_owned(),
                description: "no idea tbh".to_owned(),
                components: singleton_bag(Component::Block.code()),
            },
        );
        recipes.push(
            Skill {
                name: "Buff".to_owned(),
                description: "no idea tbh 2".to_owned(),
                components: singleton_bag(Component::Buff.code()),
            },
        );
        recipes.push(
            Skill {
                name: "Debuff".to_owned(),
                description: "no idea tbh 3".to_owned(),
                components: singleton_bag(Component::Debuff.code()),
            },
        );
        recipes.push(
            Skill {
                name: "Stun".to_owned(),
                description: "no idea tbh 4".to_owned(),
                components: singleton_bag(Component::Stun.code()),
            },
        );
        recipes
    }

    /// Craft a component multiset: the unique recipe whose multiset is
    /// exactly equal to the input, or nothing when no recipe matches.
    pub fn craft(components: &hashbag::HashBag<u8>) -> (r: Option<Skill>)
        ensures
            (r is Some) == (exists|i: int|
                0 <= i < recipe_count() && bag_elems(*components) == #[trigger] recipe_elems(i)),
            forall|i: int|
                0 <= i < recipe_count() && bag_elems(*components) == #[trigger] recipe_elems(i)
                    ==> (r matches Some(s) && recipe_wf(s, i)),
    {
        let mut recipes = Skill::get_all_recipes();
        let mut i: usize = 0;
        while i < 5
            invariant
                recipes@.len() == recipe_count(),
                forall|j: int| 0 <= j < recipe_count() ==> recipe_wf(#[trigger] recipes@[j], j),
                i <= 5,
                forall|j: int| 0 <= j < i ==> bag_elems(*components) != recipe_elems(j),
            decreases 5 - i,
        {
            if bag_eq(components, &recipes[i].components) {
                let s = recipes.remove(i);
                proof {
                    let ghost found = i as int;
                    assert forall|j: int|
                        0 <= j < recipe_count() && bag_elems(*components) == recipe_elems(
                            j,
                        ) implies recipe_wf(s, j) by {
                        lemma_recipe_elems_injective(found, j);
                    }
                }
                return Some(s);
            }
            i += 1;
        }
        None
    }
}

/// Every skill-kind component is its own one-item recipe: crafting the
/// multiset holding just that component yields a skill whose description is
/// the component's own.
pub proof fn lemma_single_skill_recipe(c: Component)
    requires
        !c.is_color_spec(),
    ensures
        0 <= c.skill_index() < recipe_count(),
        recipe_elems(c.skill_index()) == Multiset::<u8>::empty().insert(c.code_spec()),
        recipe_desc_chars(c.skill_index()) == c.description_chars(),
{
}

/// Build a bag holding the given components, by their codes.
pub fn make_hashbag(items: &Vec<Component>) -> (r: hashbag::HashBag<u8>)
    ensures
        bag_elems(r) == components_multiset(items@),
{
    let mut bag = bag_new();
    let mut i: usize = 0;
    let n: usize = items.len();
    while i < n
        invariant
            n == items@.len(),
            i <= n,
            bag_elems(bag) == components_multiset(items@.take(i as int)),
            bag_elems(bag).len() == i,
        decreases n - i,
    {
        proof {
            assert(items@.take(i + 1).drop_last() =~= items@.take(i as int));
        }
        bag_insert(&mut bag, items[i].code());
        i += 1;
    }
    proof {
        assert(items@.take(n as int) =~= items@);
    }
    bag
}

/// The multiset of a component list's codes.
pub open spec fn components_multiset(items: Seq<Component>) -> Multiset<u8>
    decreases items.len(),
{
    if items.len() == 0 {
        Multiset::<u8>::empty()
    } else {
        components_multiset(items.drop_last()).insert(items.last().code_spec())
    }
}

impl Component {
    /// A component's description: a fixed string for the colors, and for a
    /// skill kind the description of the skill crafted from just that
    /// component.
    pub fn get_description(&self) -> (r: String)
        ensures
            r@ == self.description_chars(),
    {
        match *self {
            Component::Red => "Fast speed, physical type. Chaos and momentum.".to_owned(),
            Component::Green => "Normal speed, healing type. Protection and trickery.".to_owned(),
            Component::Blue => "Slow speed, magical type. Deterrents and destruction.".to_owned(),
            other => {
                let mut items: Vec<Component> = Vec::new();
                items.push(other);
                let bag = make_hashbag(&items);
                proof {
                    assert(items@.drop_last() =~= Seq::<Component>::empty());
                    assert(items@.last() == other);
                    assert(components_multiset(Seq::<Component>::empty())
                        == Multiset::<u8>::empty());
                    assert(components_multiset(items@) == Multiset::<u8>::empty().insert(
                        other.code_spec(),
                    ));
                    lemma_single_skill_recipe(other);
                }
                match Skill::craft(&bag) {
                    Some(s) => s.description,
                    None => {
                        proof {
                            assert(false);
                        }
                        "".to_owned()
                    },
                }
            },
        }
    }

    /// A uniformly drawn color component.
    pub fn random_color() -> (r: Component)
        ensures
            r.is_color_spec(),
    {
        let colors = vec![Component::Red, Component::Green, Component::Blue];
        colors[random_index(colors.len())]
    }

    /// A uniformly drawn skill-kind component.
    pub fn random_skill() -> (r: Component)
        ensures
            !r.is_color_spec(),
    {
        let skills = vec![
            Component::Attack,
            Component::Block,
            Component::Buff,
            Component::Debuff,
            Component::Stun,
        ];
        skills[random_index(skills.len())]
    }
}

/// Relies on rand::random_range: an index drawn uniformly below the bound.
#[verifier::external_body]
fn random_index(n: usize) -> (r: usize)
    requires
        n > 0,
    ensures
        r < n,
{
    rand::random_range(0..n)
}

/// Whether a terminal cell lies on the vertical span of a drawn element:
/// same column, and a row inside the element's offset range.
pub fn within_range(ry1: u16, ry2: u16, ro: u16, rx: u16, cy: u16, cx: u16) -> (r: bool)
    requires
        ry1 + ro <= u16::MAX,
        ry2 + ro <= u16::MAX,
    ensures
        r == (cx == rx && ry1 + ro <= cy <= ry2 + ro),
{
    cx == rx && (cy >= ry1 + ro) && (cy <= ry2 + ro)
}

/// The playable state of one game session: a box of nine components — six
/// random colors then three random skills — and the bit currency, starting
/// at 40. Created once per session and owned by its render loop.
pub struct MinimalGameState {
    /// The components on offer.
    pub vbox: Vec<Component>,
    /// The bit currency.
    pub bits: i32,
}

impl MinimalGameState {
    /// A fresh game state: six random colors, three random skills, 40 bits.
    pub fn new() -> (r: MinimalGameState)
        ensures
            r.vbox@.len() == 9,
            forall|i: int| 0 <= i < 6 ==> r.vbox@[i].is_color_spec(),
            forall|i: int| 6 <= i < 9 ==> !r.vbox@[i].is_color_spec(),
            r.bits == 40,
    {
        let mut vbox: Vec<Component> = Vec::new();
        let mut i: usize = 0;
        while i < 6
            invariant
                i <= 6,
                vbox@.len() == i,
                forall|j: int| 0 <= j < i ==> vbox@[j].is_color_spec(),
            decreases 6 - i,
        {
            vbox.push(Component::random_color());
            i += 1;
        }
        let mut k: usize = 0;
        while k < 3
            invariant
                k <= 3,
                vbox@.len() == 6 + k,
                forall|j: int| 0 <= j < 6 ==> vbox@[j].is_color_spec(),
                forall|j: int| 6 <= j < 6 + k ==> !vbox@[j].is_color_spec(),
            decreases 3 - k,
        {
            vbox.push(Component::random_skill());
            k += 1;
        }
        let bits: i32 = 40;
        MinimalGameState { vbox, bits }
    }
}

} // verus!
