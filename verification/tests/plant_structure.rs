// The plant structure's expressive range: a welded chain is braced by construction, a floating
// machine's brace has to come from its contacts (a friction contact is not a weld), and a task may
// be a point, which has no rotation to report.

use control_base::plant::{ContactKind, ExternalContact, PlantStructure, TaskMap};

fn bodies() -> Vec<String> {
    ["l1", "l2", "l3"].iter().map(|s| s.to_string()).collect()
}

fn tip() -> TaskMap {
    TaskMap::Frame("tip".to_string())
}

#[test]
fn a_welded_chain_declares_itself_braced_by_construction() {
    let s = PlantStructure::fixed_base(3, bodies(), tip());
    assert_eq!(s.dof, 3, "the DOF is its joints");
    assert_eq!(s.base_dof, 0, "a welded base is not a state");
    assert!(s.all_driven(), "every joint of a serial arm is driven");
    assert!(!s.base_is_a_state());
    assert!(
        s.braced(),
        "the world holds the welded base in all six directions"
    );
    assert!(
        s.contacts.is_empty(),
        "a welded base needs no distal contact"
    );
    assert!(s.has_body("l2") && !s.has_body("l9"));
    assert_eq!(
        s.task_map,
        tip(),
        "the task is a KIND and a name, not an assumption"
    );
    assert!(!s.task_is_a_point());
    assert!(
        !s.has_point("com"),
        "a welded chain's points of interest are all on links, where a frame answers for them"
    );
}

#[test]
fn a_floating_base_is_a_state_whose_brace_must_be_supplied() {
    let mut s = PlantStructure {
        dof: 9,
        actuated: vec![false, false, false, false, false, false, true, true, true],
        base_dof: 6,
        contacts: Vec::new(),
        bodies: bodies(),
        points: Vec::new(),
        task_map: tip(),
    };
    assert!(s.base_is_a_state());
    assert!(!s.all_driven(), "the base's six coordinates are undriven");
    assert!(
        !s.braced(),
        "a floating machine with no contact has nothing to write a wrench demand against"
    );

    s.contacts = vec![ExternalContact {
        frame: "foot_l".to_string(),
        kind: ContactKind::Friction {
            mu_bits: 0.6f64.to_bits(),
        },
    }];
    assert!(!s.braced(), "a friction contact is not a weld");

    s.contacts.push(ExternalContact {
        frame: "hand".to_string(),
        kind: ContactKind::Weld,
    });
    assert!(s.braced(), "a welded distal contact is a brace");
}

#[test]
fn a_task_may_be_a_point_and_then_it_has_no_rotation_to_report() {
    let mut s = PlantStructure {
        dof: 9,
        actuated: vec![false, false, false, false, false, false, true, true, true],
        base_dof: 6,
        contacts: Vec::new(),
        bodies: bodies(),
        points: vec!["com".to_string()],
        task_map: TaskMap::Point("com".to_string()),
    };
    assert!(s.task_is_a_point(), "the task's KIND is data, not a guess");
    assert_eq!(s.task_map.name(), "com");
    assert!(s.has_point("com") && !s.has_point("l1"));
    assert!(
        !s.has_body("com"),
        "a point is not a body: it is a function of the whole configuration"
    );
    s.task_map = tip();
    assert!(!s.task_is_a_point());
}

#[test]
fn a_frame_task_names_its_frame() {
    assert_eq!(tip().name(), "tip");
    assert_eq!(TaskMap::Point("zmp".to_string()).name(), "zmp");
    assert_eq!(TaskMap::Frame(String::new()).name(), "");
}

#[test]
fn a_zero_dof_welded_chain_is_still_braced_and_driven() {
    let s = PlantStructure::fixed_base(0, Vec::new(), tip());
    assert!(s.actuated.is_empty());
    assert!(s.all_driven(), "no coordinate is undriven");
    assert!(s.braced());
    assert!(!s.has_body("l1"));
}

#[test]
fn a_declared_count_that_disagrees_with_the_flags_is_not_all_driven() {
    let mut s = PlantStructure::fixed_base(3, bodies(), tip());
    assert_eq!(s.actuated, vec![true, true, true]);
    s.actuated.pop();
    assert!(
        !s.all_driven(),
        "a coordinate with no actuation flag is not declared driven"
    );
    s.actuated.push(true);
    s.actuated.push(true);
    assert!(!s.all_driven(), "a flag past the last coordinate is not a coordinate");
}

#[test]
fn the_friction_coefficient_round_trips_through_its_bits() {
    let k = ContactKind::Friction {
        mu_bits: 0.6f64.to_bits(),
    };
    match k {
        ContactKind::Friction { mu_bits } => assert_eq!(f64::from_bits(mu_bits), 0.6),
        ContactKind::Weld => panic!("a friction contact read back as a weld"),
    }
}

#[test]
fn a_weld_anywhere_in_the_list_braces_a_floating_base() {
    let friction = |f: &str| ExternalContact {
        frame: f.to_string(),
        kind: ContactKind::Friction {
            mu_bits: 0.8f64.to_bits(),
        },
    };
    let mut s = PlantStructure {
        dof: 6,
        actuated: vec![false; 6],
        base_dof: 6,
        contacts: vec![
            ExternalContact {
                frame: "rail".to_string(),
                kind: ContactKind::Weld,
            },
            friction("foot_l"),
            friction("foot_r"),
        ],
        bodies: Vec::new(),
        points: Vec::new(),
        task_map: TaskMap::Point("com".to_string()),
    };
    assert!(s.braced());
    s.contacts.remove(0);
    assert!(!s.braced(), "two friction contacts are still not a weld");
}

#[test]
fn friction_coefficients_compare_as_numbers() {
    let f = |mu: f64| ContactKind::Friction {
        mu_bits: mu.to_bits(),
    };
    assert_eq!(f(0.6), f(0.6));
    assert_ne!(f(0.6), f(0.8));
    assert_eq!(f(0.0), f(-0.0), "a zero coefficient is a zero whatever its sign");
    assert_ne!(f(f64::NAN), f(f64::NAN), "a NaN coefficient equals nothing, itself included");
    assert_ne!(f(f64::NAN), f(0.6));
    assert_eq!(f(f64::INFINITY), f(f64::INFINITY));
    assert_ne!(f(f64::INFINITY), f(f64::NEG_INFINITY));
    assert_eq!(ContactKind::Weld, ContactKind::Weld);
    assert_ne!(ContactKind::Weld, f(0.0));
    let c = |mu: f64| ExternalContact {
        frame: "foot".to_string(),
        kind: f(mu),
    };
    assert_eq!(c(0.0), c(-0.0));
    assert_ne!(c(f64::NAN), c(f64::NAN));
}
