use heed::{EngineError, Env, RoTxn, RwTxn};

#[test]
fn committed_writes_visible_only_to_later_readers() {
    // begin read txn R before any write; write x=9 and commit; R still
    // sees nothing, a reader begun after the commit sees 9.
    let mut env = Env::new(false);
    let r = RoTxn::new(&env).unwrap();
    let mut w = RwTxn::new(&mut env).unwrap();
    w.put(b"x", &[9]).unwrap();
    w.commit(&mut env).unwrap();
    assert_eq!(r.get(b"x"), None);
    let r2 = RoTxn::new(&env).unwrap();
    assert_eq!(r2.get(b"x"), Some(&vec![9]));
    r.commit().unwrap();
    r2.commit().unwrap();
}

#[test]
fn nested_txn_abort_keeps_parent_writes() {
    // T1 puts a=1; nested T2 puts a=2 and aborts; T1 still reads 1.
    let mut env = Env::new(false);
    let mut t1 = RwTxn::new(&mut env).unwrap();
    t1.put(b"a", &[1]).unwrap();
    let mut t2 = RwTxn::nested(&env, &mut t1).unwrap();
    assert_eq!(t2.get(b"a"), Some(&vec![1]));
    t2.put(b"a", &[2]).unwrap();
    assert_eq!(t2.get(b"a"), Some(&vec![2]));
    t2.abort_nested(&mut t1);
    assert_eq!(t1.get(b"a"), Some(&vec![1]));
    t1.abort(&mut env);
}

#[test]
fn nested_txn_commit_folds_into_parent() {
    // T1 puts a=1; nested T2 puts a=2 and commits; T1 reads 2.
    let mut env = Env::new(false);
    let mut t1 = RwTxn::new(&mut env).unwrap();
    t1.put(b"a", &[1]).unwrap();
    let mut t2 = RwTxn::nested(&env, &mut t1).unwrap();
    t2.put(b"a", &[2]).unwrap();
    t2.commit_nested(&mut t1).unwrap();
    assert_eq!(t1.get(b"a"), Some(&vec![2]));
    // the fold is not yet durable: the environment still holds nothing
    let r = RoTxn::new(&env).unwrap();
    assert_eq!(r.get(b"a"), None);
    t1.commit(&mut env).unwrap();
    let r2 = RoTxn::new(&env).unwrap();
    assert_eq!(r2.get(b"a"), Some(&vec![2]));
}

#[test]
fn only_one_writer_at_a_time() {
    let mut env = Env::new(false);
    let w1 = RwTxn::new(&mut env).unwrap();
    let busy = match RwTxn::new(&mut env) {
        Err(e) => e,
        Ok(_) => panic!("a second writer must not begin"),
    };
    assert_eq!(busy, EngineError::WriterBusy);
    assert!(!busy.message().is_empty());
    w1.abort(&mut env);
    // once the writer ended, a new one may begin
    let w2 = RwTxn::new(&mut env).unwrap();
    w2.commit(&mut env).unwrap();
}

#[test]
fn parent_refuses_writes_while_child_is_open() {
    let mut env = Env::new(false);
    let mut t1 = RwTxn::new(&mut env).unwrap();
    let t2 = RwTxn::nested(&env, &mut t1).unwrap();
    assert_eq!(t1.put(b"k", &[0]).unwrap_err(), EngineError::ChildActive);
    assert_eq!(t1.del(b"k").unwrap_err(), EngineError::ChildActive);
    // and a second child is refused while the first is live
    let second = match RwTxn::nested(&env, &mut t1) {
        Err(e) => e,
        Ok(_) => panic!("a second child must not begin"),
    };
    assert_eq!(second, EngineError::ChildActive);
    t2.abort_nested(&mut t1);
    t1.put(b"k", &[0]).unwrap();
    t1.abort(&mut env);
}

#[test]
fn abort_discards_all_writes() {
    let mut env = Env::new(false);
    let mut w = RwTxn::new(&mut env).unwrap();
    w.put(b"gone", &[1, 2, 3]).unwrap();
    w.abort(&mut env);
    let r = RoTxn::new(&env).unwrap();
    assert_eq!(r.get(b"gone"), None);
}

#[test]
fn delete_reports_presence() {
    let mut env = Env::new(false);
    let mut w = RwTxn::new(&mut env).unwrap();
    w.put(b"k", &[5]).unwrap();
    assert_eq!(w.del(b"k").unwrap(), true);
    assert_eq!(w.get(b"k"), None);
    assert_eq!(w.del(b"k").unwrap(), false);
    w.commit(&mut env).unwrap();
}

#[test]
fn put_overwrites_value() {
    let mut env = Env::new(false);
    let mut w = RwTxn::new(&mut env).unwrap();
    w.put(b"k", &[1]).unwrap();
    w.put(b"k", &[2]).unwrap();
    assert_eq!(w.get(b"k"), Some(&vec![2]));
    w.commit(&mut env).unwrap();
    let r = RoTxn::new(&env).unwrap();
    assert_eq!(r.get(b"k"), Some(&vec![2]));
}

#[test]
fn nested_read_requires_configuration() {
    let mut env = Env::new(false);
    let mut w = RwTxn::new(&mut env).unwrap();
    w.put(b"k", &[7]).unwrap();
    let err = match RoTxn::nested(&env, &mut w) {
        Err(e) => e,
        Ok(_) => panic!("nested read must be refused"),
    };
    assert_eq!(err, EngineError::NestedReadUnsupported);
    // the refusal left the parent usable
    w.put(b"k", &[8]).unwrap();
    w.abort(&mut env);
}

#[test]
fn nested_read_sees_uncommitted_writes() {
    let mut env = Env::new(true);
    let mut w = RwTxn::new(&mut env).unwrap();
    w.put(b"k", &[7]).unwrap();
    let r = RoTxn::nested(&env, &mut w).unwrap();
    assert_eq!(r.get(b"k"), Some(&vec![7]));
    // the parent is a child-holder now: it refuses writes, a second
    // child, and its own end until the read child ends, so the child
    // observes all of the parent's writes for its whole life
    assert_eq!(w.put(b"k", &[8]).unwrap_err(), EngineError::ChildActive);
    let second = match RoTxn::nested(&env, &mut w) {
        Err(e) => e,
        Ok(_) => panic!("a second child must not begin"),
    };
    assert_eq!(second, EngineError::ChildActive);
    // the ordinary reader still sees the committed state only
    let plain = RoTxn::new(&env).unwrap();
    assert_eq!(plain.get(b"k"), None);
    // ending the read child releases the parent
    r.commit_nested(&mut w).unwrap();
    w.put(b"k", &[8]).unwrap();
    assert_eq!(w.get(b"k"), Some(&vec![8]));
    w.abort(&mut env);
}

#[test]
fn static_read_txn_owns_its_snapshot() {
    let mut env = Env::new(false);
    let mut w = RwTxn::new(&mut env).unwrap();
    w.put(b"k", &[3]).unwrap();
    w.commit(&mut env).unwrap();
    let r = RoTxn::static_read_txn(env).unwrap();
    assert_eq!(r.get(b"k"), Some(&vec![3]));
    r.commit().unwrap();
}

#[test]
fn dropping_a_writer_persists_nothing() {
    // a transaction value that is simply dropped has never touched the
    // environment: its writes are gone, as after an explicit abort
    let mut env = Env::new(false);
    {
        let mut w = RwTxn::new(&mut env).unwrap();
        w.put(b"k", &[1]).unwrap();
        // w dropped here without commit
    }
    let r = RoTxn::new(&env).unwrap();
    assert_eq!(r.get(b"k"), None);
}

#[test]
fn engine_error_messages_name_the_cause() {
    assert_eq!(
        EngineError::WriterBusy.message(),
        "a read-write transaction is already open on this environment"
    );
    assert_eq!(EngineError::ChildActive.message(), "the transaction has a live child transaction");
    assert_eq!(
        EngineError::NestedReadUnsupported.message(),
        "the environment does not support nested read transactions"
    );
}
