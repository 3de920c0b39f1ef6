use rigid_sim::entity::{Entity, EntityManager};

#[test]
fn identity_manager_create_counts_sequentially() {
    let mut ent_man = EntityManager::new();
    assert!(ent_man.create().id == 0);
    assert!(ent_man.create().id == 1);
    assert!(ent_man.create().id == 2);
}

#[test]
fn identity_manager_destroy_kills_entities() {
    let mut ent_man = EntityManager::new();
    let entities = (0..3).map(|_| ent_man.create()).collect::<Vec<Entity>>();
    ent_man.destroy(&entities[1]);

    assert_eq!(ent_man.alive(&entities[0]), true);
    assert_eq!(ent_man.alive(&entities[1]), false);
    assert_eq!(ent_man.alive(&entities[2]), true);
}

#[test]
fn destroy_reports_whether_entity_was_alive() {
    let mut ent_man = EntityManager::new();
    let e = ent_man.create();
    assert!(ent_man.destroy(&e));
    assert!(!ent_man.destroy(&e));
    assert!(!ent_man.alive(&Entity { id: 5 }));
}

#[test]
fn destroyed_ids_are_not_reused() {
    let mut ent_man = EntityManager::new();
    let a = ent_man.create();
    ent_man.destroy(&a);
    let b = ent_man.create();
    assert_eq!(b.id, 1);
    assert!(!ent_man.alive(&a));
    assert!(ent_man.alive(&b));
}
