//! The structure a plant declares about itself, as data: how many coordinates it has, which of
//! them are driven, whether its base is part of the state, what holds it, which bodies and points
//! it answers for, and which task it presents for control.
use vstd::prelude::*;

use crate::adapt::index_of;
use vstd::std_specs::cmp::PartialEqSpecImpl;

verus! {

/// TaskMap is what a plant presents for task control. A frame answers six rows (it has a
/// rotation); a point answers three and has no rotation to report.
#[derive(Clone, Debug, PartialEq)]
pub enum TaskMap {
    /// A frame of this machine's own chain, by name.
    Frame(String),
    /// A point that is not a frame, by name: three rows and no rotation.
    Point(String),
}

impl TaskMap {
    /// The name the task map carries, whichever kind it is.
    pub open spec fn spec_name(&self) -> Seq<char> {
        match self {
            TaskMap::Frame(n) => n@,
            TaskMap::Point(n) => n@,
        }
    }

    pub fn name(&self) -> (r: &str)
        ensures
            r@ == self.spec_name(),
            self matches TaskMap::Frame(n) ==> r@ == n@,
            self matches TaskMap::Point(n) ==> r@ == n@,
    {
        match self {
            TaskMap::Frame(n) => n.as_str(),
            TaskMap::Point(n) => n.as_str(),
        }
    }
}


/// ContactKind is what the environment supplies at one frame. The two regimes are not one scaled:
/// a weld holds all six directions at any magnitude, while a friction contact is unilateral and
/// friction-limited, so a demand outside its cone breaks the contact rather than saturating it.
#[derive(Clone, Copy, Debug)]
pub enum ContactKind {
    /// Holds all six directions at any magnitude, so a wrench demand written in this frame is
    /// realizable verbatim.
    Weld,
    /// Unilateral and friction-limited: `f_z >= 0`, `|f_t| <= mu f_z`. The coefficient is carried
    /// as the bit pattern of its `f64` (`f64::to_bits`): nothing in the structure computes with it,
    /// and `f64::from_bits` hands it back exactly.
    Friction { mu_bits: u64 },
}

/// The bit pattern of an `f64` is a NaN: every exponent bit set and a nonzero fraction.
pub open spec fn bits_are_nan(b: u64) -> bool {
    (b & 0x7ff0_0000_0000_0000u64) == 0x7ff0_0000_0000_0000u64 && (b & 0x000f_ffff_ffff_ffffu64) != 0
}

/// The bit pattern of an `f64` is a zero of either sign.
pub open spec fn bits_are_zero(b: u64) -> bool {
    (b & 0x7fff_ffff_ffff_ffffu64) == 0
}

/// Two `f64` bit patterns hold equal numbers: neither is a NaN, and they are the same pattern or
/// both zeros (`0.0 == -0.0`).
pub open spec fn f64_bits_equal(a: u64, b: u64) -> bool {
    !bits_are_nan(a) && !bits_are_nan(b) && (a == b || (bits_are_zero(a) && bits_are_zero(b)))
}

/// Two contact kinds are equal when they are both welds, or both friction contacts whose
/// coefficients are equal as numbers.
pub open spec fn contact_kind_eq(a: ContactKind, b: ContactKind) -> bool {
    match (a, b) {
        (ContactKind::Weld, ContactKind::Weld) => true,
        (ContactKind::Friction { mu_bits: x }, ContactKind::Friction { mu_bits: y }) => f64_bits_equal(x, y),
        _ => false,
    }
}

impl PartialEq for ContactKind {
    fn eq(&self, other: &ContactKind) -> (r: bool) {
        match (self, other) {
            (ContactKind::Weld, ContactKind::Weld) => true,
            (ContactKind::Friction { mu_bits: x }, ContactKind::Friction { mu_bits: y }) => {
                let a = *x;
                let b = *y;
                let a_nan = (a & 0x7ff0_0000_0000_0000u64) == 0x7ff0_0000_0000_0000u64
                    && (a & 0x000f_ffff_ffff_ffffu64) != 0;
                let b_nan = (b & 0x7ff0_0000_0000_0000u64) == 0x7ff0_0000_0000_0000u64
                    && (b & 0x000f_ffff_ffff_ffffu64) != 0;
                let both_zero = (a & 0x7fff_ffff_ffff_ffffu64) == 0 && (b & 0x7fff_ffff_ffff_ffffu64) == 0;
                !a_nan && !b_nan && (a == b || both_zero)
            },
            _ => false,
        }
    }
}

impl PartialEqSpecImpl for ContactKind {
    open spec fn obeys_eq_spec() -> bool {
        true
    }

    open spec fn eq_spec(&self, other: &ContactKind) -> bool {
        contact_kind_eq(*self, *other)
    }
}

/// ExternalContact is one distal source of external wrench: the frame it acts at, and what it can
/// supply there. The base's weld is stated by `base_dof`, so this list is the distal contacts alone.
#[derive(Clone, Debug, PartialEq)]
pub struct ExternalContact {
    pub frame: String,
    pub kind: ContactKind,
}

/// PlantStructure is a machine's structure as data: everything the interface must know about a
/// machine before any quantity is asked of it, stated rather than assumed.
#[derive(Clone, Debug, PartialEq)]
pub struct PlantStructure {
    /// The number of generalized coordinates: for a fixed-base machine these are the joints, for a
    /// floating one the leading `base_dof` of them are the base pose the joints follow.
    pub dof: usize,
    /// One entry per generalized coordinate; an undriven row is a constraint the environment must
    /// satisfy, not a torque to be written.
    pub actuated: Vec<bool>,
    /// How many leading coordinates are the base pose.
    pub base_dof: usize,
    /// The distal contacts the environment supplies.
    pub contacts: Vec<ExternalContact>,
    /// Every body the plant answers for, by name and in chain order.
    pub bodies: Vec<String>,
    /// Every non-frame point the plant answers for, by name.
    pub points: Vec<String>,
    /// The task this plant presents for control.
    pub task_map: TaskMap,
}

/// Every generalized coordinate is declared, and every one of them is driven by a torque.
pub open spec fn spec_all_driven(dof: usize, actuated: Seq<bool>) -> bool {
    &&& actuated.len() == dof
    &&& forall|i: int| 0 <= i < actuated.len() ==> #[trigger] actuated[i]
}

/// Something holds the machine in all six directions: either its base is welded (not part of the
/// state), or one of its distal contacts is a weld.
pub open spec fn spec_braced(base_dof: usize, contacts: Seq<ExternalContact>) -> bool {
    base_dof == 0 || exists|i: int| 0 <= i < contacts.len() && #[trigger] contacts[i].kind is Weld
}

/// `name` is one of the names in `names`.
pub open spec fn names_contain(names: Seq<String>, name: Seq<char>) -> bool {
    exists|i: int| 0 <= i < names.len() && #[trigger] names[i]@ == name
}

/// `s` is the structure of a chain welded at its base with `dof` driven joints.
pub open spec fn is_fixed_base(s: PlantStructure, dof: usize, bodies: Seq<String>, task_map: TaskMap) -> bool {
    &&& s.dof == dof
    &&& s.actuated@ == Seq::new(dof as nat, |i: int| true)
    &&& s.base_dof == 0
    &&& s.contacts@.len() == 0
    &&& s.bodies@ == bodies
    &&& s.points@.len() == 0
    &&& s.task_map == task_map
}

/// Whether `names` holds `name`; the answer is exactly the membership.
fn contains_name(names: &Vec<String>, name: &str) -> (r: bool)
    ensures
        r == names_contain(names@, name@),
{
    match index_of(names, name) {
        Some(i) => {
            assert(names@[i as int]@ == name@);
            true
        },
        None => false,
    }
}

impl PlantStructure {
    /// A chain welded at its base: every coordinate a driven joint, no base in the state, no distal
    /// contact and no separate point list, since every point of interest is on a link.
    pub fn fixed_base(dof: usize, bodies: Vec<String>, task_map: TaskMap) -> (s: PlantStructure)
        ensures
            is_fixed_base(s, dof, bodies@, task_map),
    {
        let mut actuated: Vec<bool> = Vec::new();
        let mut i: usize = 0;
        while i < dof
            invariant
                i <= dof,
                actuated@ == Seq::new(i as nat, |k: int| true),
            decreases dof - i,
        {
            actuated.push(true);
            i += 1;
        }
        PlantStructure {
            dof,
            actuated,
            base_dof: 0,
            contacts: Vec::new(),
            bodies,
            points: Vec::new(),
            task_map,
        }
    }

    /// Whether every generalized coordinate is written by a torque, which is when a wrench demand
    /// may be mapped straight through the Jacobian's transpose.
    pub fn all_driven(&self) -> (r: bool)
        ensures
            r == spec_all_driven(self.dof, self.actuated@),
    {
        if self.actuated.len() != self.dof {
            return false;
        }
        let mut i: usize = 0;
        while i < self.actuated.len()
            invariant
                i <= self.actuated@.len(),
                forall|j: int| 0 <= j < i ==> #[trigger] self.actuated@[j],
            decreases self.actuated@.len() - i,
        {
            if !self.actuated[i] {
                return false;
            }
            i += 1;
        }
        true
    }

    /// Whether the base pose is part of the state (a floating base).
    pub fn base_is_a_state(&self) -> (r: bool)
        ensures
            r == (self.base_dof > 0),
    {
        self.base_dof > 0
    }

    /// Whether something holds the machine in all six directions, which is when a wrench demand is
    /// realizable verbatim.
    pub fn braced(&self) -> (r: bool)
        ensures
            r == spec_braced(self.base_dof, self.contacts@),
    {
        if !self.base_is_a_state() {
            return true;
        }
        let mut i: usize = 0;
        while i < self.contacts.len()
            invariant
                self.base_dof > 0,
                i <= self.contacts@.len(),
                forall|j: int| 0 <= j < i ==> !(#[trigger] self.contacts@[j].kind is Weld),
            decreases self.contacts@.len() - i,
        {
            if let ContactKind::Weld = self.contacts[i].kind {
                return true;
            }
            i += 1;
        }
        false
    }

    /// Whether the plant answers for a body of this name.
    pub fn has_body(&self, name: &str) -> (r: bool)
        ensures
            r == names_contain(self.bodies@, name@),
    {
        contains_name(&self.bodies, name)
    }

    /// Whether the plant answers for a point of this name.
    pub fn has_point(&self, name: &str) -> (r: bool)
        ensures
            r == names_contain(self.points@, name@),
    {
        contains_name(&self.points, name)
    }

    /// Whether the task is a point, which has no rotation: reading this is how a six-row quantity
    /// is avoided instead of acting on the identity a point task's pose carries by convention.
    pub fn task_is_a_point(&self) -> (r: bool)
        ensures
            r == (self.task_map is Point),
    {
        match self.task_map {
            TaskMap::Point(_) => true,
            TaskMap::Frame(_) => false,
        }
    }
}

/// A chain built by `fixed_base` declares itself braced by construction: its base is not a state,
/// every coordinate is driven, it needs no distal contact and it names no separate point.
pub proof fn a_welded_chain_is_braced_by_construction(
    s: PlantStructure,
    dof: usize,
    bodies: Seq<String>,
    task_map: TaskMap,
)
    requires
        is_fixed_base(s, dof, bodies, task_map),
    ensures
        spec_braced(s.base_dof, s.contacts@),
        spec_all_driven(s.dof, s.actuated@),
        !(s.base_dof > 0),
        forall|name: Seq<char>| !names_contain(s.points@, name),
{
}

/// A floating machine whose distal contacts are all friction contacts is not braced: a friction
/// contact holds one direction, and only in compression, so it does not substitute for a weld.
pub proof fn friction_alone_does_not_brace_a_floating_base(
    base_dof: usize,
    contacts: Seq<ExternalContact>,
)
    requires
        base_dof > 0,
        forall|i: int| 0 <= i < contacts.len() ==> #[trigger] contacts[i].kind is Friction,
    ensures
        !spec_braced(base_dof, contacts),
{
    assert forall|i: int| 0 <= i < contacts.len() implies !(#[trigger] contacts[i].kind is Weld) by {
        assert(contacts[i].kind is Friction);
    }
}

/// A distal weld braces a machine whatever else it declares: appending one to any contact list
/// makes the structure braced, floating base or not.
pub proof fn a_distal_weld_braces(base_dof: usize, contacts: Seq<ExternalContact>, weld: ExternalContact)
    requires
        weld.kind is Weld,
    ensures
        spec_braced(base_dof, contacts.push(weld)),
{
    let all = contacts.push(weld);
    assert(all[contacts.len() as int].kind is Weld);
}


/// The name a task map reports is exactly the string it carries, whichever kind it is.
pub proof fn a_task_maps_name_is_the_string_it_carries(n: String)
    ensures
        TaskMap::Frame(n).spec_name() == n@,
        TaskMap::Point(n).spec_name() == n@,
{
}

/// Friction coefficients compare as `f64` numbers: two different bit patterns are different
/// numbers unless both are zeros, so they compare unequal; the same pattern compares equal unless
/// it is a NaN; a NaN equals nothing; `0.0` equals `-0.0`; the comparison is symmetric; and a weld
/// never equals a friction contact.
pub proof fn friction_coefficients_compare_as_numbers(x: u64, y: u64)
    ensures
        (x != y && !((x & 0x7fff_ffff_ffff_ffffu64) == 0 && (y & 0x7fff_ffff_ffff_ffffu64) == 0))
            ==> !contact_kind_eq(ContactKind::Friction { mu_bits: x }, ContactKind::Friction { mu_bits: y }),
        (x == y && !((x & 0x7ff0_0000_0000_0000u64) == 0x7ff0_0000_0000_0000u64
            && (x & 0x000f_ffff_ffff_ffffu64) != 0))
            ==> contact_kind_eq(ContactKind::Friction { mu_bits: x }, ContactKind::Friction { mu_bits: y }),
        ((x & 0x7ff0_0000_0000_0000u64) == 0x7ff0_0000_0000_0000u64 && (x & 0x000f_ffff_ffff_ffffu64) != 0)
            ==> !contact_kind_eq(ContactKind::Friction { mu_bits: x }, ContactKind::Friction { mu_bits: y })
                && !contact_kind_eq(ContactKind::Friction { mu_bits: y }, ContactKind::Friction { mu_bits: x }),
        contact_kind_eq(ContactKind::Friction { mu_bits: x }, ContactKind::Friction { mu_bits: y })
            == contact_kind_eq(ContactKind::Friction { mu_bits: y }, ContactKind::Friction { mu_bits: x }),
        contact_kind_eq(ContactKind::Friction { mu_bits: 0u64 }, ContactKind::Friction { mu_bits: 0x8000_0000_0000_0000u64 }),
        !contact_kind_eq(ContactKind::Weld, ContactKind::Friction { mu_bits: x }),
        !contact_kind_eq(ContactKind::Friction { mu_bits: x }, ContactKind::Weld),
        contact_kind_eq(ContactKind::Weld, ContactKind::Weld),
{
    assert((0u64 & 0x7fff_ffff_ffff_ffffu64) == 0
        && (0x8000_0000_0000_0000u64 & 0x7fff_ffff_ffff_ffffu64) == 0) by (bit_vector);
    assert((0u64 & 0x7ff0_0000_0000_0000u64) != 0x7ff0_0000_0000_0000u64
        && (0x8000_0000_0000_0000u64 & 0x7ff0_0000_0000_0000u64) != 0x7ff0_0000_0000_0000u64) by (bit_vector);
}

} // verus!
