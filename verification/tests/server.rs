use tower_abci::server::Server;
use tower_abci::v037::server::Server as Server037;

#[test]
fn finish_with_all_services() {
    let server = Server::<u8, u16, u32, u64>::builder()
        .consensus(1)
        .mempool(2)
        .info(3)
        .snapshot(4)
        .finish()
        .expect("all four are set");
    assert_eq!(server.into_parts(), (1, 2, 3, 4));
}

#[test]
fn finish_in_any_order_and_last_setting_wins() {
    let server = Server::<u8, u8, u8, u8>::builder()
        .snapshot(4)
        .info(9)
        .mempool(2)
        .consensus(1)
        .info(3)
        .finish()
        .expect("all four are set");
    assert_eq!(server.into_parts(), (1, 2, 3, 4));
}

#[test]
fn finish_missing_a_service() {
    assert!(Server::<u8, u8, u8, u8>::builder().consensus(1).mempool(2).info(3).finish().is_none());
    assert!(Server::<u8, u8, u8, u8>::builder().mempool(2).info(3).snapshot(4).finish().is_none());
    assert!(Server::<u8, u8, u8, u8>::builder().finish().is_none());
}

#[test]
fn finish_v037() {
    let s = Server037::<&str, &str, &str, &str>::builder()
        .consensus("c")
        .mempool("m")
        .info("i")
        .snapshot("s")
        .finish()
        .expect("all four are set");
    assert_eq!(s.into_parts(), ("c", "m", "i", "s"));
    assert!(Server037::<u8, u8, u8, u8>::builder().consensus(1).mempool(2).snapshot(4).finish().is_none());
}

#[test]
fn queue_bounds() {
    assert_eq!(tower_abci::split::queue_bound(0), 4);
    assert_eq!(tower_abci::split::queue_bound(3), 4);
    assert_eq!(tower_abci::split::queue_bound(10), 10);
    assert_eq!(tower_abci::v037::split::queue_bound(0), 1);
    assert_eq!(tower_abci::v037::split::queue_bound(1), 1);
    assert_eq!(tower_abci::v037::split::queue_bound(5), 5);
}
