use stress4844::bundle::BundleAssembly;
use stress4844::errors::ClientError;

#[test]
fn complete_assembly_keeps_plan_order() {
    let mut assembly = BundleAssembly::new(3);
    assert!(assembly.apply_signed(Ok(vec![1u8])).is_ok());
    assert!(assembly.apply_signed(Ok(vec![2u8, 2])).is_ok());
    assert!(assembly.apply_signed(Ok(vec![3u8, 3, 3])).is_ok());
    assert!(assembly.is_complete());
    let bundle = assembly.finish();
    assert_eq!(bundle.txs().len(), 3);
    assert_eq!(bundle.txs()[0], vec![1u8]);
    assert_eq!(bundle.txs()[1], vec![2u8, 2]);
    assert_eq!(bundle.txs()[2], vec![3u8, 3, 3]);
}

#[test]
fn estimation_failure_aborts_assembly() {
    // A gas-estimation failure on the second planned entry: the assembly
    // reports the error, stays incomplete, and no bundle can be produced, so
    // nothing is ever handed to a relay from the half-built plan.
    let mut assembly = BundleAssembly::new(3);
    assert!(assembly.apply_signed(Ok(vec![1u8])).is_ok());
    let r = assembly.apply_signed(Err(ClientError::Estimation));
    assert_eq!(r, Err(ClientError::Estimation));
    assert!(!assembly.is_complete());
}

#[test]
fn signing_failure_propagates() {
    let mut assembly = BundleAssembly::new(1);
    let r = assembly.apply_signed(Err(ClientError::Signing));
    assert_eq!(r, Err(ClientError::Signing));
    assert!(!assembly.is_complete());
}

#[test]
fn target_points_one_block_ahead() {
    let mut assembly = BundleAssembly::new(1);
    assembly.apply_signed(Ok(vec![9u8])).unwrap();
    let mut bundle = assembly.finish();
    bundle.set_target(1234);
    assert_eq!(bundle.target_block(), 1235);
    assert_eq!(bundle.simulation_block(), 1234);
    assert_eq!(bundle.simulation_timestamp(), 0);
    // Retargeting for the next observed block replaces the metadata.
    bundle.set_target(1235);
    assert_eq!(bundle.target_block(), 1236);
    assert_eq!(bundle.simulation_block(), 1235);
}

#[test]
fn empty_plan_is_complete_at_once() {
    let assembly = BundleAssembly::new(0);
    assert!(assembly.is_complete());
    let bundle = assembly.finish();
    assert_eq!(bundle.txs().len(), 0);
}
