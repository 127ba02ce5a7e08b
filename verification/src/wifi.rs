//! Choice of the Wi-Fi channels from the result of a scan: the station
//! joins the configured network on the channel where the scan found it,
//! and the access point runs on that channel too, or on channel 1 where
//! the network was not found.

use vstd::prelude::*;

verus! {

/// The channel the access point uses when the configured network was not
/// found by the scan.
pub const DEFAULT_AP_CHANNEL: u8 = 1;

/// One network reported by a scan.
#[derive(Debug)]
pub struct AccessPoint {
    /// The network's name.
    pub ssid: String,
    /// The channel it was found on.
    pub channel: u8,
}

/// The channels to configure.
#[derive(Clone, Copy, Debug, PartialEq, Eq, Structural)]
pub struct ChannelPlan {
    /// The channel of the configured network, where the scan found it.
    pub client: Option<u8>,
    /// The channel of the access point.
    pub access_point: u8,
}

/// The channel of the first network in `scan` named `ssid`.
pub open spec fn channel_of_first(scan: Seq<AccessPoint>, ssid: Seq<char>) -> Option<u8>
    decreases scan.len(),
{
    if scan.len() == 0 {
        None
    } else if scan[0].ssid@ == ssid {
        Some(scan[0].channel)
    } else {
        channel_of_first(scan.drop_first(), ssid)
    }
}

/// The channels to configure after a scan that returned `scan`.
pub open spec fn channel_plan_of(scan: Seq<AccessPoint>, ssid: Seq<char>) -> ChannelPlan {
    let client = channel_of_first(scan, ssid);
    ChannelPlan {
        client,
        access_point: match client {
            Some(channel) => channel,
            None => DEFAULT_AP_CHANNEL,
        },
    }
}

/// Chooses the channels for the network named `ssid` from the networks
/// that a scan reported.
pub fn plan_channels(scan: &Vec<AccessPoint>, ssid: &String) -> (plan: ChannelPlan)
    ensures
        plan == channel_plan_of(scan@, ssid@),
        plan.client is None <==> forall|i: int|
            0 <= i < scan@.len() ==> (#[trigger] scan@[i]).ssid@ != ssid@,
        plan.client matches Some(channel) ==> exists|i: int|
            0 <= i < scan@.len() && (#[trigger] scan@[i]).ssid@ == ssid@ && scan@[i].channel
                == channel && forall|j: int| 0 <= j < i ==> (#[trigger] scan@[j]).ssid@ != ssid@,
        plan.client matches Some(channel) ==> plan.access_point == channel,
        plan.client is None ==> plan.access_point == DEFAULT_AP_CHANNEL,
        DEFAULT_AP_CHANNEL == 1,
{
    let mut found: Option<u8> = None;
    let mut i: usize = 0;
    assert(scan@.skip(0) =~= scan@);
    while i < scan.len()
        invariant_except_break
            found is None,
        invariant
            0 <= i <= scan.len(),
            channel_of_first(scan@, ssid@) == channel_of_first(scan@.skip(i as int), ssid@),
        ensures
            found == channel_of_first(scan@, ssid@),
        decreases scan.len() - i,
    {
        assert(scan@.skip(i as int).drop_first() =~= scan@.skip(i + 1));
        assert(scan@.skip(i as int)[0] == scan@[i as int]);
        if scan[i].ssid == *ssid {
            found = Some(scan[i].channel);
            break;
        }
        i = i + 1;
    }
    let access_point = match found {
        Some(channel) => channel,
        None => DEFAULT_AP_CHANNEL,
    };
    proof {
        lemma_channel_plan(scan@, ssid@);
    }
    ChannelPlan { client: found, access_point }
}

/// The channel chosen for the station is that of a network named `ssid`,
/// the first one in the scan; where there is none, no channel is chosen.
pub proof fn lemma_first_match(scan: Seq<AccessPoint>, ssid: Seq<char>)
    ensures
        channel_of_first(scan, ssid) is None <==> forall|i: int|
            0 <= i < scan.len() ==> (#[trigger] scan[i]).ssid@ != ssid,
        channel_of_first(scan, ssid) matches Some(channel) ==> exists|i: int|
            0 <= i < scan.len() && (#[trigger] scan[i]).ssid@ == ssid && scan[i].channel == channel
                && forall|j: int| 0 <= j < i ==> (#[trigger] scan[j]).ssid@ != ssid,
    decreases scan.len(),
{
    if scan.len() > 0 {
        let rest = scan.drop_first();
        lemma_first_match(rest, ssid);
        assert forall|i: int| 0 < i < scan.len() implies #[trigger] scan[i] == rest[i - 1] by {}
        if scan[0].ssid@ != ssid {
            if channel_of_first(rest, ssid) is None {
                assert forall|i: int| 0 <= i < scan.len() implies (#[trigger] scan[i]).ssid@ != ssid by {
                    if i > 0 {
                        assert(rest[i - 1] == scan[i]);
                    }
                }
            } else {
                let channel = channel_of_first(rest, ssid)->0;
                let k = choose|k: int|
                    0 <= k < rest.len() && (#[trigger] rest[k]).ssid@ == ssid && rest[k].channel
                        == channel && forall|j: int| 0 <= j < k ==> (#[trigger] rest[j]).ssid@ != ssid;
                assert(scan[k + 1] == rest[k]);
                assert forall|j: int| 0 <= j < k + 1 implies (#[trigger] scan[j]).ssid@ != ssid by {
                    if j > 0 {
                        assert(rest[j - 1] == scan[j]);
                    }
                }
            }
        }
    }
}

/// The plan for a scan joins the first network named `ssid`, on the channel
/// where that entry was found, and runs the access point on the same
/// channel; with no network of that name in the scan, the station is given
/// no channel and the access point runs on channel 1. In particular, when
/// the first entry of the scan is named `ssid`, its channel is chosen.
pub proof fn lemma_channel_plan(scan: Seq<AccessPoint>, ssid: Seq<char>)
    ensures
        channel_plan_of(scan, ssid).client is None <==> forall|i: int|
            0 <= i < scan.len() ==> (#[trigger] scan[i]).ssid@ != ssid,
        channel_plan_of(scan, ssid).client matches Some(channel) ==> exists|i: int|
            0 <= i < scan.len() && (#[trigger] scan[i]).ssid@ == ssid && scan[i].channel == channel
                && forall|j: int| 0 <= j < i ==> (#[trigger] scan[j]).ssid@ != ssid,
        channel_plan_of(scan, ssid).client matches Some(channel) ==> channel_plan_of(
            scan,
            ssid,
        ).access_point == channel,
        channel_plan_of(scan, ssid).client is None ==> channel_plan_of(scan, ssid).access_point
            == 1,
        scan.len() > 0 && scan[0].ssid@ == ssid ==> channel_plan_of(scan, ssid) == (ChannelPlan {
            client: Some(scan[0].channel),
            access_point: scan[0].channel,
        }),
{
    lemma_first_match(scan, ssid);
    if scan.len() > 0 && scan[0].ssid@ == ssid {
        let plan = channel_plan_of(scan, ssid);
        if plan.client is None {
            assert(scan[0].ssid@ != ssid);
        } else {
            let channel = plan.client->0;
            let i = choose|i: int|
                0 <= i < scan.len() && (#[trigger] scan[i]).ssid@ == ssid && scan[i].channel
                    == channel && forall|j: int| 0 <= j < i ==> (#[trigger] scan[j]).ssid@ != ssid;
            if i > 0 {
                assert(scan[0].ssid@ != ssid);
            }
        }
    }
}

} // verus!
