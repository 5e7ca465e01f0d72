use authcore::actors::id_gen::IDGenerator;

#[test]
fn next_from_is_strictly_increasing_within_an_instant() {
    let mut g = IDGenerator::new(1);
    let a = g.next_from(10).unwrap();
    let b = g.next_from(10).unwrap();
    let c = g.next_from(10).unwrap();
    assert!(a < b);
    assert!(b < c);
}

#[test]
fn next_from_survives_a_clock_step_backwards() {
    let mut g = IDGenerator::new(1);
    let a = g.next_from(100).unwrap();
    let b = g.next_from(50).unwrap();
    let c = g.next_from(100).unwrap();
    assert!(a < b);
    assert!(b < c);
}

#[test]
fn next_from_advances_with_the_clock() {
    let mut g = IDGenerator::new(1);
    let a = g.next_from(10).unwrap();
    let b = g.next_from(11).unwrap();
    assert!(a < b);
}

#[test]
fn next_id_issues_from_the_machine_clock() {
    let mut g = IDGenerator::new(3);
    let a = g.next_id().unwrap();
    let b = g.next_id().unwrap();
    assert!(a < b);
}

#[test]
fn a_fresh_generator_can_issue() {
    let g = IDGenerator::new(1);
    assert!(g.can_issue(0));
    assert!(g.can_issue(1));
}

#[test]
fn node_discriminator_separates_generators() {
    let mut g1 = IDGenerator::new(1);
    let mut g2 = IDGenerator::new(2);
    let a = g1.next_from(10).unwrap();
    let b = g2.next_from(10).unwrap();
    assert_ne!(a, b);
}

#[test]
fn ten_thousand_ids_from_fifty_tasks_are_unique() {
    let runtime = tokio::runtime::Runtime::new().unwrap();
    let ids = runtime.block_on(async {
        let (tx, mut rx) = tokio::sync::mpsc::channel::<tokio::sync::oneshot::Sender<u128>>(100);
        let actor = tokio::spawn(async move {
            let mut generator = IDGenerator::new(1);
            while let Some(reply) = rx.recv().await {
                let id = generator.next_id().expect("generator exhausted");
                let _ = reply.send(id);
            }
        });
        let mut workers = Vec::new();
        for _ in 0..50 {
            let tx = tx.clone();
            workers.push(tokio::spawn(async move {
                let mut got = Vec::new();
                for _ in 0..200 {
                    let (reply_tx, reply_rx) = tokio::sync::oneshot::channel();
                    tx.send(reply_tx).await.unwrap();
                    got.push(reply_rx.await.unwrap());
                }
                got
            }));
        }
        drop(tx);
        let mut all = Vec::new();
        for w in workers {
            all.extend(w.await.unwrap());
        }
        actor.await.unwrap();
        all
    });
    assert_eq!(ids.len(), 10_000);
    let mut sorted = ids.clone();
    sorted.sort();
    sorted.dedup();
    assert_eq!(sorted.len(), 10_000);
}
