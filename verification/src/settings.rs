//! The settings exchange that opens a WebTransport session: each side sends
//! settings that enable WebTransport and requires the peer's to do so.
use crate::h3::settings::{enable_webtransport_map, supports_webtransport_map, Settings};
use crate::WTError;
use vstd::prelude::*;

verus! {

/// The settings a WebTransport endpoint sends: WebTransport enabled, with
/// one session at most.
pub fn local_settings() -> (r: Settings)
    ensures
        r@ == enable_webtransport_map(Map::empty(), 1),
        r@ == map![
            0x8u64 => 1u64,
            0x33u64 => 1u64,
            0xFFD277u64 => 1u64,
            0xc671706au64 => 1u64,
            0x2b603743u64 => 1u64,
            0x2b603742u64 => 1u64,
        ],
{
    let mut settings = Settings::default();
    settings.enable_webtransport(1);
    proof {
        assert(settings@ =~= map![
            0x8u64 => 1u64,
            0x33u64 => 1u64,
            0xFFD277u64 => 1u64,
            0xc671706au64 => 1u64,
            0x2b603743u64 => 1u64,
            0x2b603742u64 => 1u64,
        ]);
    }
    settings
}

/// What the settings exchange decides of the peer's settings: they must
/// announce WebTransport support.
pub fn check_peer_settings(peer: &Settings) -> (r: Result<(), WTError>)
    ensures
        r is Ok <==> supports_webtransport_map(peer@),
        r is Err ==> r == Err::<(), WTError>(WTError::WebTransportNotSupported),
{
    if !peer.supports_webtransport() {
        return Err(WTError::WebTransportNotSupported);
    }
    Ok(())
}

} // verus!
