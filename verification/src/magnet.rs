//! Magnet-identifier normalization and the argument list handed to the
//! external download agent.

use vstd::prelude::*;
use crate::text::{has_prefix, str_has_prefix};
use vstd::string::{StringExecFns, StrSliceExecFns};

verus! {

/// An identifier that already carries the magnet scheme is kept as it is;
/// a bare info-hash is wrapped as `magnet:?xt=urn:btih:<hash>`.
pub open spec fn spec_normalize_magnet(m: Seq<char>) -> Seq<char> {
    if has_prefix(m, "magnet:?"@) {
        m
    } else {
        "magnet:?xt=urn:btih:"@ + m
    }
}

/// Normalize a magnet identifier into a well-formed magnet URI, as
/// `spec_normalize_magnet` describes.
pub fn normalize_magnet(magnet: &str) -> (r: String)
    ensures
        r@ == spec_normalize_magnet(magnet@),
{
    if str_has_prefix(magnet, "magnet:?") {
        String::from_str(magnet)
    } else {
        String::from_str("magnet:?xt=urn:btih:").concat(magnet)
    }
}

/// The fixed tracker announce list passed to the download agent.
pub fn tracker_option() -> (r: String)
    ensures
        r@
            == "--bt-tracker=udp://tracker.opentrackr.org:1337/announce,udp://open.stealth.si:80/announce,udp://tracker.cyberia.is:6969/announce"@,
{
    String::from_str(
        "--bt-tracker=udp://tracker.opentrackr.org:1337/announce,udp://open.stealth.si:80/announce,udp://tracker.cyberia.is:6969/announce",
    )
}

/// The argument list for one invocation of the download agent: destination
/// directory, output filename, no seeding after completion, the normalized
/// magnet URI, DHT and peer exchange enabled, and the fixed tracker list.
pub fn agent_args(root: &str, filename: &str, magnet: &str) -> (r: Vec<String>)
    ensures
        r@.len() == 9,
        r@[0]@ == "--dir"@,
        r@[1]@ == root@,
        r@[2]@ == "--out"@,
        r@[3]@ == filename@,
        r@[4]@ == "--seed-time=0"@,
        r@[5]@ == spec_normalize_magnet(magnet@),
        r@[6]@ == "--enable-dht=true"@,
        r@[7]@ == "--enable-peer-exchange=true"@,
        r@[8]@
            == "--bt-tracker=udp://tracker.opentrackr.org:1337/announce,udp://open.stealth.si:80/announce,udp://tracker.cyberia.is:6969/announce"@,
{
    let mut args: Vec<String> = Vec::new();
    args.push(String::from_str("--dir"));
    args.push(String::from_str(root));
    args.push(String::from_str("--out"));
    args.push(String::from_str(filename));
    args.push(String::from_str("--seed-time=0"));
    args.push(normalize_magnet(magnet));
    args.push(String::from_str("--enable-dht=true"));
    args.push(String::from_str("--enable-peer-exchange=true"));
    args.push(tracker_option());
    args
}

} // verus!
