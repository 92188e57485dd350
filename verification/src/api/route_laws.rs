//! What the paths of the API have to do with one another.

use vstd::prelude::*;

use crate::api::routes;
use crate::api::routes::{Endpoint, Verb};

verus! {

// ---------------------------------------------------------------------------
// No two requests are served at the same place
// ---------------------------------------------------------------------------

/// The character at a place of a text, or zero outside of it.
pub open spec fn letter(s: Seq<char>, k: int) -> int {
    if 0 <= k < s.len() {
        s[k] as int
    } else {
        0
    }
}

/// A number by which the paths are told apart: their length and a few of their characters.
#[verifier::opaque]
pub open spec fn mark(s: Seq<char>) -> int {
    s.len() + 128 * letter(s, s.len() - 5) + 16384 * letter(s, 15) + 2097152 * letter(s, 17) + 268435456 * letter(s, 19) + 34359738368 * letter(s, 22)
}

/// The row of the request with a mark and a method.
pub open spec fn row_of(mark: int, verb: Verb) -> usize {
    if mark == 12424 {
        0
    } else if mark == 12935 {
        1
    } else if mark == 14856 {
        2
    } else if mark == 3498741101720 {
        3
    } else if mark == 6279 {
        if verb is Post {
            4
        } else {
            5
        }
    } else if mark == 6028 {
        if verb is Get {
            6
        } else {
            7
        }
    } else if mark == 244873618 {
        8
    } else if mark == 3772836771872 {
        9
    } else if mark == 30039111701 {
        10
    } else if mark == 1643298552220 {
        11
    } else if mark == 1643298552349 {
        12
    } else if mark == 1643298549917 {
        13
    } else if mark == 1824657 {
        14
    } else if mark == 213743634 {
        15
    } else if mark == 230486675 {
        16
    } else if mark == 26822376086 {
        17
    } else if mark == 3876167955352 {
        18
    } else if mark == 3498210833051 {
        19
    } else if mark == 213743635 {
        20
    } else if mark == 257521939 {
        21
    } else if mark == 1595281 {
        22
    } else if mark == 213645587 {
        23
    } else if mark == 242776466 {
        24
    } else if mark == 4014686943642 {
        25
    } else if mark == 3739809035034 {
        26
    } else if mark == 3945967464609 {
        27
    } else if mark == 4014686943771 {
        28
    } else if mark == 3636729821604 {
        29
    } else if mark == 3636729820326 {
        30
    } else if mark == 3636729822245 {
        31
    } else if mark == 3636729821606 {
        32
    } else if mark == 3636729819813 {
        33
    } else if mark == 3499290868131 {
        34
    } else if mark == 3842888251291 {
        if verb is Get {
            35
        } else {
            36
        }
    } else if mark == 3842888251295 {
        if verb is Get {
            37
        } else if verb is Post {
            38
        } else {
            39
        }
    } else if mark == 3533650604446 {
        40
    } else if mark == 243104018 {
        if verb is Get {
            41
        } else {
            42
        }
    } else if mark == 31079643924 {
        if verb is Get {
            43
        } else {
            44
        }
    } else if mark == 4016809294363 {
        45
    } else if mark == 4016809294234 {
        46
    } else if mark == 3501413216923 {
        47
    } else if mark == 3501413218085 {
        48
    } else if mark == 3845010600353 {
        49
    } else if mark == 3948089816871 {
        50
    } else if mark == 3467053479587 {
        51
    } else if mark == 3741931385626 {
        52
    } else if mark == 3501413219365 {
        53
    } else if mark == 3845010601117 {
        if verb is Get {
            54
        } else {
            55
        }
    } else if mark == 3845010601767 {
        56
    } else if mark == 3810650863522 {
        if verb is Get {
            57
        } else {
            58
        }
    } else if mark == 3810650862244 {
        59
    } else if mark == 3810650864684 {
        60
    } else if mark == 3810650863276 {
        61
    } else if mark == 3810650862123 {
        62
    } else if mark == 3810650863282 {
        63
    } else if mark == 3810650861743 {
        64
    } else if mark == 3810650863387 {
        if verb is Get {
            65
        } else {
            66
        }
    } else if mark == 3778472146713 {
        if verb is Get {
            67
        } else {
            68
        }
    } else if mark == 13711 {
        if verb is Get {
            69
        } else {
            70
        }
    } else if mark == 29490935574 {
        if verb is Get {
            71
        } else {
            72
        }
    } else if mark == 28407739542 {
        73
    } else if mark == 249133459 {
        74
    } else if mark == 219886226 {
        75
    } else if mark == 219705747 {
        76
    } else if mark == 3758047654554 {
        77
    } else if mark == 3758047656485 {
        78
    } else if mark == 3963692561431 {
        79
    } else if mark == 31360563093 {
        80
    } else if mark == 4116402713368 {
        81
    } else if mark == 4116402706333 {
        82
    } else if mark == 31620380181 {
        83
    } else if mark == 30844483989 {
        84
    } else if mark == 1693585 {
        85
    } else if mark == 244936850 {
        86
    } else if mark == 1576497927835 {
        87
    } else if mark == 1574082008731 {
        88
    } else if mark == 27346581268 {
        89
    } else if mark == 29764376469 {
        90
    } else if mark == 3948380975907 {
        91
    } else if mark == 27325388693 {
        92
    } else if mark == 3497929505049 {
        93
    } else if mark == 4120162892183 {
        94
    } else if mark == 3497929505312 {
        95
    } else if mark == 3363711768478 {
        96
    } else if mark == 3363711775135 {
        97
    } else if mark == 12557 {
        if verb is Post {
            98
        } else {
            99
        }
    } else if mark == 3879424653339 {
        100
    } else if mark == 3944654460826 {
        101
    } else if mark == 4116453161883 {
        102
    } else if mark == 3431942748058 {
        103
    } else if mark == 3876471863334 {
        104
    } else if mark == 28121413653 {
        105
    } else if mark == 13837 {
        if verb is Get {
            106
        } else {
            107
        }
    } else if mark == 1765776 {
        108
    } else if mark == 213430419 {
        109
    } else if mark == 14088 {
        110
    } else if mark == 14729 {
        111
    } else if mark == 1650960 {
        112
    } else if mark == 217790994 {
        if verb is Post {
            113
        } else {
            120
        }
    } else if mark == 3778446833433 {
        114
    } else if mark == 3778446832288 {
        115
    } else if mark == 3778446832031 {
        116
    } else if mark == 3778446834720 {
        117
    } else if mark == 3778446825123 {
        118
    } else if mark == 3359687520664 {
        119
    } else if mark == 14345 {
        if verb is Post {
            121
        } else {
            122
        }
    } else if mark == 2062096 {
        if verb is Get {
            123
        } else {
            124
        }
    } else if mark == 26247917974 {
        125
    } else if mark == 3501444788887 {
        126
    } else {
        0
    }
}

#[verifier::spinoff_prover]
proof fn lemma_marks_0()
    ensures
        mark("/healthz"@) == 12424,
        mark("/readyz"@) == 12935,
        mark("/metrics"@) == 14856,
        mark("/v1/runtime/capabilities"@) == 3498741101720,
        mark("/v1/vms"@) == 6279,
        mark("/v1/vms/{id}"@) == 6028,
        mark("/v1/vms/{id}/start"@) == 244873618,
        mark("/v1/vms/{id}/start-from-snapshot"@) == 3772836771872,
        mark("/v1/vms/{id}/snapshot"@) == 30039111701,
        mark("/v1/vms/{id}/migration/start"@) == 1643298552220,
        mark("/v1/vms/{id}/migration/status"@) == 1643298552349,
        mark("/v1/vms/{id}/migration/cancel"@) == 1643298549917,
{
    assert(mark("/healthz"@) == 12424) by {
        reveal(mark);
        reveal_strlit("/healthz");
    }
    assert(mark("/readyz"@) == 12935) by {
        reveal(mark);
        reveal_strlit("/readyz");
    }
    assert(mark("/metrics"@) == 14856) by {
        reveal(mark);
        reveal_strlit("/metrics");
    }
    assert(mark("/v1/runtime/capabilities"@) == 3498741101720) by {
        reveal(mark);
        reveal_strlit("/v1/runtime/capabilities");
    }
    assert(mark("/v1/vms"@) == 6279) by {
        reveal(mark);
        reveal_strlit("/v1/vms");
    }
    assert(mark("/v1/vms/{id}"@) == 6028) by {
        reveal(mark);
        reveal_strlit("/v1/vms/{id}");
    }
    assert(mark("/v1/vms/{id}/start"@) == 244873618) by {
        reveal(mark);
        reveal_strlit("/v1/vms/{id}/start");
    }
    assert(mark("/v1/vms/{id}/start-from-snapshot"@) == 3772836771872) by {
        reveal(mark);
        reveal_strlit("/v1/vms/{id}/start-from-snapshot");
    }
    assert(mark("/v1/vms/{id}/snapshot"@) == 30039111701) by {
        reveal(mark);
        reveal_strlit("/v1/vms/{id}/snapshot");
    }
    assert(mark("/v1/vms/{id}/migration/start"@) == 1643298552220) by {
        reveal(mark);
        reveal_strlit("/v1/vms/{id}/migration/start");
    }
    assert(mark("/v1/vms/{id}/migration/status"@) == 1643298552349) by {
        reveal(mark);
        reveal_strlit("/v1/vms/{id}/migration/status");
    }
    assert(mark("/v1/vms/{id}/migration/cancel"@) == 1643298549917) by {
        reveal(mark);
        reveal_strlit("/v1/vms/{id}/migration/cancel");
    }
}

#[verifier::spinoff_prover]
proof fn lemma_marks_1()
    ensures
        mark("/v1/vms/{id}/stop"@) == 1824657,
        mark("/v1/vms/{id}/pause"@) == 213743634,
        mark("/v1/vms/{id}/resume"@) == 230486675,
        mark("/v1/vms/{id}/resources"@) == 26822376086,
        mark("/v1/vms/{id}/hotplug/cpu"@) == 3876167955352,
        mark("/v1/vms/{id}/hotplug/memory"@) == 3498210833051,
        mark("/v1/vms/{id}/cpuset"@) == 213743635,
        mark("/v1/vms/{id}/freeze"@) == 257521939,
        mark("/v1/vms/{id}/thaw"@) == 1595281,
        mark("/v1/vms/{id}/frozen"@) == 213645587,
        mark("/v1/vms/{id}/stats"@) == 242776466,
        mark("/v1/vms/{id}/network/stats"@) == 4014686943642,
{
    assert(mark("/v1/vms/{id}/stop"@) == 1824657) by {
        reveal(mark);
        reveal_strlit("/v1/vms/{id}/stop");
    }
    assert(mark("/v1/vms/{id}/pause"@) == 213743634) by {
        reveal(mark);
        reveal_strlit("/v1/vms/{id}/pause");
    }
    assert(mark("/v1/vms/{id}/resume"@) == 230486675) by {
        reveal(mark);
        reveal_strlit("/v1/vms/{id}/resume");
    }
    assert(mark("/v1/vms/{id}/resources"@) == 26822376086) by {
        reveal(mark);
        reveal_strlit("/v1/vms/{id}/resources");
    }
    assert(mark("/v1/vms/{id}/hotplug/cpu"@) == 3876167955352) by {
        reveal(mark);
        reveal_strlit("/v1/vms/{id}/hotplug/cpu");
    }
    assert(mark("/v1/vms/{id}/hotplug/memory"@) == 3498210833051) by {
        reveal(mark);
        reveal_strlit("/v1/vms/{id}/hotplug/memory");
    }
    assert(mark("/v1/vms/{id}/cpuset"@) == 213743635) by {
        reveal(mark);
        reveal_strlit("/v1/vms/{id}/cpuset");
    }
    assert(mark("/v1/vms/{id}/freeze"@) == 257521939) by {
        reveal(mark);
        reveal_strlit("/v1/vms/{id}/freeze");
    }
    assert(mark("/v1/vms/{id}/thaw"@) == 1595281) by {
        reveal(mark);
        reveal_strlit("/v1/vms/{id}/thaw");
    }
    assert(mark("/v1/vms/{id}/frozen"@) == 213645587) by {
        reveal(mark);
        reveal_strlit("/v1/vms/{id}/frozen");
    }
    assert(mark("/v1/vms/{id}/stats"@) == 242776466) by {
        reveal(mark);
        reveal_strlit("/v1/vms/{id}/stats");
    }
    assert(mark("/v1/vms/{id}/network/stats"@) == 4014686943642) by {
        reveal(mark);
        reveal_strlit("/v1/vms/{id}/network/stats");
    }
}

#[verifier::spinoff_prover]
proof fn lemma_marks_2()
    ensures
        mark("/v1/vms/{id}/network/flows"@) == 3739809035034,
        mark("/v1/vms/{id}/network/drop-reasons"@) == 3945967464609,
        mark("/v1/vms/{id}/network/status"@) == 4014686943771,
        mark("/v1/vms/{id}/network/migration/state"@) == 3636729821604,
        mark("/v1/vms/{id}/network/migration/quiesce"@) == 3636729820326,
        mark("/v1/vms/{id}/network/migration/export"@) == 3636729822245,
        mark("/v1/vms/{id}/network/migration/restore"@) == 3636729821606,
        mark("/v1/vms/{id}/network/migration/resume"@) == 3636729819813,
        mark("/v1/vms/{id}/network/services/stats"@) == 3499290868131,
        mark("/v1/vms/{id}/network/policy"@) == 3842888251291,
        mark("/v1/vms/{id}/network/pod-policy"@) == 3842888251295,
        mark("/v1/vms/{id}/network/effective"@) == 3533650604446,
{
    assert(mark("/v1/vms/{id}/network/flows"@) == 3739809035034) by {
        reveal(mark);
        reveal_strlit("/v1/vms/{id}/network/flows");
    }
    assert(mark("/v1/vms/{id}/network/drop-reasons"@) == 3945967464609) by {
        reveal(mark);
        reveal_strlit("/v1/vms/{id}/network/drop-reasons");
    }
    assert(mark("/v1/vms/{id}/network/status"@) == 4014686943771) by {
        reveal(mark);
        reveal_strlit("/v1/vms/{id}/network/status");
    }
    assert(mark("/v1/vms/{id}/network/migration/state"@) == 3636729821604) by {
        reveal(mark);
        reveal_strlit("/v1/vms/{id}/network/migration/state");
    }
    assert(mark("/v1/vms/{id}/network/migration/quiesce"@) == 3636729820326) by {
        reveal(mark);
        reveal_strlit("/v1/vms/{id}/network/migration/quiesce");
    }
    assert(mark("/v1/vms/{id}/network/migration/export"@) == 3636729822245) by {
        reveal(mark);
        reveal_strlit("/v1/vms/{id}/network/migration/export");
    }
    assert(mark("/v1/vms/{id}/network/migration/restore"@) == 3636729821606) by {
        reveal(mark);
        reveal_strlit("/v1/vms/{id}/network/migration/restore");
    }
    assert(mark("/v1/vms/{id}/network/migration/resume"@) == 3636729819813) by {
        reveal(mark);
        reveal_strlit("/v1/vms/{id}/network/migration/resume");
    }
    assert(mark("/v1/vms/{id}/network/services/stats"@) == 3499290868131) by {
        reveal(mark);
        reveal_strlit("/v1/vms/{id}/network/services/stats");
    }
    assert(mark("/v1/vms/{id}/network/policy"@) == 3842888251291) by {
        reveal(mark);
        reveal_strlit("/v1/vms/{id}/network/policy");
    }
    assert(mark("/v1/vms/{id}/network/pod-policy"@) == 3842888251295) by {
        reveal(mark);
        reveal_strlit("/v1/vms/{id}/network/pod-policy");
    }
    assert(mark("/v1/vms/{id}/network/effective"@) == 3533650604446) by {
        reveal(mark);
        reveal_strlit("/v1/vms/{id}/network/effective");
    }
}

#[verifier::spinoff_prover]
proof fn lemma_marks_3()
    ensures
        mark("/v1/network/groups"@) == 243104018,
        mark("/v1/network/services"@) == 31079643924,
        mark("/v1/network/services/status"@) == 4016809294363,
        mark("/v1/network/services/stats"@) == 4016809294234,
        mark("/v1/network/services/health"@) == 3501413216923,
        mark("/v1/network/services/health/reconcile"@) == 3501413218085,
        mark("/v1/network/services/conntrack/gc"@) == 3845010600353,
        mark("/v1/network/services/pressure/reconcile"@) == 3948089816871,
        mark("/v1/network/services/advertisements"@) == 3467053479587,
        mark("/v1/network/services/flows"@) == 3741931385626,
        mark("/v1/network/services/telemetry/export"@) == 3501413219365,
        mark("/v1/network/services/policies"@) == 3845010601117,
{
    assert(mark("/v1/network/groups"@) == 243104018) by {
        reveal(mark);
        reveal_strlit("/v1/network/groups");
    }
    assert(mark("/v1/network/services"@) == 31079643924) by {
        reveal(mark);
        reveal_strlit("/v1/network/services");
    }
    assert(mark("/v1/network/services/status"@) == 4016809294363) by {
        reveal(mark);
        reveal_strlit("/v1/network/services/status");
    }
    assert(mark("/v1/network/services/stats"@) == 4016809294234) by {
        reveal(mark);
        reveal_strlit("/v1/network/services/stats");
    }
    assert(mark("/v1/network/services/health"@) == 3501413216923) by {
        reveal(mark);
        reveal_strlit("/v1/network/services/health");
    }
    assert(mark("/v1/network/services/health/reconcile"@) == 3501413218085) by {
        reveal(mark);
        reveal_strlit("/v1/network/services/health/reconcile");
    }
    assert(mark("/v1/network/services/conntrack/gc"@) == 3845010600353) by {
        reveal(mark);
        reveal_strlit("/v1/network/services/conntrack/gc");
    }
    assert(mark("/v1/network/services/pressure/reconcile"@) == 3948089816871) by {
        reveal(mark);
        reveal_strlit("/v1/network/services/pressure/reconcile");
    }
    assert(mark("/v1/network/services/advertisements"@) == 3467053479587) by {
        reveal(mark);
        reveal_strlit("/v1/network/services/advertisements");
    }
    assert(mark("/v1/network/services/flows"@) == 3741931385626) by {
        reveal(mark);
        reveal_strlit("/v1/network/services/flows");
    }
    assert(mark("/v1/network/services/telemetry/export"@) == 3501413219365) by {
        reveal(mark);
        reveal_strlit("/v1/network/services/telemetry/export");
    }
    assert(mark("/v1/network/services/policies"@) == 3845010601117) by {
        reveal(mark);
        reveal_strlit("/v1/network/services/policies");
    }
}

#[verifier::spinoff_prover]
proof fn lemma_marks_4()
    ensures
        mark("/v1/network/services/policies/reconcile"@) == 3845010601767,
        mark("/v1/network/services/{name}/policy"@) == 3810650863522,
        mark("/v1/network/services/{name}/l7/envoy"@) == 3810650862244,
        mark("/v1/network/services/{name}/conntrack/export"@) == 3810650864684,
        mark("/v1/network/services/{name}/conntrack/import"@) == 3810650863276,
        mark("/v1/network/services/{name}/conntrack/delta"@) == 3810650862123,
        mark("/v1/network/services/{name}/conntrack/delta/import"@) == 3810650863282,
        mark("/v1/network/services/{name}/conntrack/delta/ack"@) == 3810650861743,
        mark("/v1/network/services/{name}"@) == 3810650863387,
        mark("/v1/network/groups/{name}"@) == 3778472146713,
        mark("/v1/network/cnp"@) == 13711,
        mark("/v1/network/cnp/{name}"@) == 29490935574,
{
    assert(mark("/v1/network/services/policies/reconcile"@) == 3845010601767) by {
        reveal(mark);
        reveal_strlit("/v1/network/services/policies/reconcile");
    }
    assert(mark("/v1/network/services/{name}/policy"@) == 3810650863522) by {
        reveal(mark);
        reveal_strlit("/v1/network/services/{name}/policy");
    }
    assert(mark("/v1/network/services/{name}/l7/envoy"@) == 3810650862244) by {
        reveal(mark);
        reveal_strlit("/v1/network/services/{name}/l7/envoy");
    }
    assert(mark("/v1/network/services/{name}/conntrack/export"@) == 3810650864684) by {
        reveal(mark);
        reveal_strlit("/v1/network/services/{name}/conntrack/export");
    }
    assert(mark("/v1/network/services/{name}/conntrack/import"@) == 3810650863276) by {
        reveal(mark);
        reveal_strlit("/v1/network/services/{name}/conntrack/import");
    }
    assert(mark("/v1/network/services/{name}/conntrack/delta"@) == 3810650862123) by {
        reveal(mark);
        reveal_strlit("/v1/network/services/{name}/conntrack/delta");
    }
    assert(mark("/v1/network/services/{name}/conntrack/delta/import"@) == 3810650863282) by {
        reveal(mark);
        reveal_strlit("/v1/network/services/{name}/conntrack/delta/import");
    }
    assert(mark("/v1/network/services/{name}/conntrack/delta/ack"@) == 3810650861743) by {
        reveal(mark);
        reveal_strlit("/v1/network/services/{name}/conntrack/delta/ack");
    }
    assert(mark("/v1/network/services/{name}"@) == 3810650863387) by {
        reveal(mark);
        reveal_strlit("/v1/network/services/{name}");
    }
    assert(mark("/v1/network/groups/{name}"@) == 3778472146713) by {
        reveal(mark);
        reveal_strlit("/v1/network/groups/{name}");
    }
    assert(mark("/v1/network/cnp"@) == 13711) by {
        reveal(mark);
        reveal_strlit("/v1/network/cnp");
    }
    assert(mark("/v1/network/cnp/{name}"@) == 29490935574) by {
        reveal(mark);
        reveal_strlit("/v1/network/cnp/{name}");
    }
}

#[verifier::spinoff_prover]
proof fn lemma_marks_5()
    ensures
        mark("/v1/network/identities"@) == 28407739542,
        mark("/v1/network/observe"@) == 249133459,
        mark("/v1/network/health"@) == 219886226,
        mark("/v1/network/ipcache"@) == 219705747,
        mark("/v1/network/ipcache/remote"@) == 3758047654554,
        mark("/v1/network/ipcache/remote/{identity}"@) == 3758047656485,
        mark("/v1/network/refresh-dns"@) == 3963692561431,
        mark("/v1/network/endpoints"@) == 31360563093,
        mark("/v1/network/hubble/flows"@) == 4116402713368,
        mark("/v1/network/hubble/flows/text"@) == 4116402706333,
        mark("/v1/network/hubble/ui"@) == 31620380181,
        mark("/v1/vms/{id}/pressure"@) == 30844483989,
{
    assert(mark("/v1/network/identities"@) == 28407739542) by {
        reveal(mark);
        reveal_strlit("/v1/network/identities");
    }
    assert(mark("/v1/network/observe"@) == 249133459) by {
        reveal(mark);
        reveal_strlit("/v1/network/observe");
    }
    assert(mark("/v1/network/health"@) == 219886226) by {
        reveal(mark);
        reveal_strlit("/v1/network/health");
    }
    assert(mark("/v1/network/ipcache"@) == 219705747) by {
        reveal(mark);
        reveal_strlit("/v1/network/ipcache");
    }
    assert(mark("/v1/network/ipcache/remote"@) == 3758047654554) by {
        reveal(mark);
        reveal_strlit("/v1/network/ipcache/remote");
    }
    assert(mark("/v1/network/ipcache/remote/{identity}"@) == 3758047656485) by {
        reveal(mark);
        reveal_strlit("/v1/network/ipcache/remote/{identity}");
    }
    assert(mark("/v1/network/refresh-dns"@) == 3963692561431) by {
        reveal(mark);
        reveal_strlit("/v1/network/refresh-dns");
    }
    assert(mark("/v1/network/endpoints"@) == 31360563093) by {
        reveal(mark);
        reveal_strlit("/v1/network/endpoints");
    }
    assert(mark("/v1/network/hubble/flows"@) == 4116402713368) by {
        reveal(mark);
        reveal_strlit("/v1/network/hubble/flows");
    }
    assert(mark("/v1/network/hubble/flows/text"@) == 4116402706333) by {
        reveal(mark);
        reveal_strlit("/v1/network/hubble/flows/text");
    }
    assert(mark("/v1/network/hubble/ui"@) == 31620380181) by {
        reveal(mark);
        reveal_strlit("/v1/network/hubble/ui");
    }
    assert(mark("/v1/vms/{id}/pressure"@) == 30844483989) by {
        reveal(mark);
        reveal_strlit("/v1/vms/{id}/pressure");
    }
}

#[verifier::spinoff_prover]
proof fn lemma_marks_6()
    ensures
        mark("/v1/vms/{id}/logs"@) == 1693585,
        mark("/v1/vms/{id}/agent"@) == 244936850,
        mark("/v1/vms/{id}/agent/put-file"@) == 1576497927835,
        mark("/v1/vms/{id}/agent/get-file"@) == 1574082008731,
        mark("/v1/vms/{id}/console"@) == 27346581268,
        mark("/v1/vms/{id}/qga/ping"@) == 29764376469,
        mark("/v1/vms/{id}/qga/network-interfaces"@) == 3948380975907,
        mark("/v1/vms/{id}/qga/exec"@) == 27325388693,
        mark("/v1/vms/{id}/qga/fsfreeze"@) == 3497929505049,
        mark("/v1/vms/{id}/qga/fsthaw"@) == 4120162892183,
        mark("/v1/vms/{id}/qga/fsfreeze-status"@) == 3497929505312,
        mark("/v1/vms/{id}/qga/firewall/open"@) == 3363711768478,
{
    assert(mark("/v1/vms/{id}/logs"@) == 1693585) by {
        reveal(mark);
        reveal_strlit("/v1/vms/{id}/logs");
    }
    assert(mark("/v1/vms/{id}/agent"@) == 244936850) by {
        reveal(mark);
        reveal_strlit("/v1/vms/{id}/agent");
    }
    assert(mark("/v1/vms/{id}/agent/put-file"@) == 1576497927835) by {
        reveal(mark);
        reveal_strlit("/v1/vms/{id}/agent/put-file");
    }
    assert(mark("/v1/vms/{id}/agent/get-file"@) == 1574082008731) by {
        reveal(mark);
        reveal_strlit("/v1/vms/{id}/agent/get-file");
    }
    assert(mark("/v1/vms/{id}/console"@) == 27346581268) by {
        reveal(mark);
        reveal_strlit("/v1/vms/{id}/console");
    }
    assert(mark("/v1/vms/{id}/qga/ping"@) == 29764376469) by {
        reveal(mark);
        reveal_strlit("/v1/vms/{id}/qga/ping");
    }
    assert(mark("/v1/vms/{id}/qga/network-interfaces"@) == 3948380975907) by {
        reveal(mark);
        reveal_strlit("/v1/vms/{id}/qga/network-interfaces");
    }
    assert(mark("/v1/vms/{id}/qga/exec"@) == 27325388693) by {
        reveal(mark);
        reveal_strlit("/v1/vms/{id}/qga/exec");
    }
    assert(mark("/v1/vms/{id}/qga/fsfreeze"@) == 3497929505049) by {
        reveal(mark);
        reveal_strlit("/v1/vms/{id}/qga/fsfreeze");
    }
    assert(mark("/v1/vms/{id}/qga/fsthaw"@) == 4120162892183) by {
        reveal(mark);
        reveal_strlit("/v1/vms/{id}/qga/fsthaw");
    }
    assert(mark("/v1/vms/{id}/qga/fsfreeze-status"@) == 3497929505312) by {
        reveal(mark);
        reveal_strlit("/v1/vms/{id}/qga/fsfreeze-status");
    }
    assert(mark("/v1/vms/{id}/qga/firewall/open"@) == 3363711768478) by {
        reveal(mark);
        reveal_strlit("/v1/vms/{id}/qga/firewall/open");
    }
}

#[verifier::spinoff_prover]
proof fn lemma_marks_7()
    ensures
        mark("/v1/vms/{id}/qga/firewall/close"@) == 3363711775135,
        mark("/v1/sandboxes"@) == 12557,
        mark("/v1/sandboxes/{id}/snapshot"@) == 3879424653339,
        mark("/v1/sandboxes/{id}/fs/read"@) == 3944654460826,
        mark("/v1/sandboxes/{id}/fs/write"@) == 4116453161883,
        mark("/v1/sandboxes/{id}/process"@) == 3431942748058,
        mark("/v1/sandboxes/{id}/http/{port}/{*path}"@) == 3876471863334,
        mark("/sandbox/{id}/{*path}"@) == 28121413653,
        mark("/v1/templates"@) == 13837,
        mark("/v1/egress/check"@) == 1765776,
        mark("/v1/egress/nftables"@) == 213430419,
        mark("/console"@) == 14088,
{
    assert(mark("/v1/vms/{id}/qga/firewall/close"@) == 3363711775135) by {
        reveal(mark);
        reveal_strlit("/v1/vms/{id}/qga/firewall/close");
    }
    assert(mark("/v1/sandboxes"@) == 12557) by {
        reveal(mark);
        reveal_strlit("/v1/sandboxes");
    }
    assert(mark("/v1/sandboxes/{id}/snapshot"@) == 3879424653339) by {
        reveal(mark);
        reveal_strlit("/v1/sandboxes/{id}/snapshot");
    }
    assert(mark("/v1/sandboxes/{id}/fs/read"@) == 3944654460826) by {
        reveal(mark);
        reveal_strlit("/v1/sandboxes/{id}/fs/read");
    }
    assert(mark("/v1/sandboxes/{id}/fs/write"@) == 4116453161883) by {
        reveal(mark);
        reveal_strlit("/v1/sandboxes/{id}/fs/write");
    }
    assert(mark("/v1/sandboxes/{id}/process"@) == 3431942748058) by {
        reveal(mark);
        reveal_strlit("/v1/sandboxes/{id}/process");
    }
    assert(mark("/v1/sandboxes/{id}/http/{port}/{*path}"@) == 3876471863334) by {
        reveal(mark);
        reveal_strlit("/v1/sandboxes/{id}/http/{port}/{*path}");
    }
    assert(mark("/sandbox/{id}/{*path}"@) == 28121413653) by {
        reveal(mark);
        reveal_strlit("/sandbox/{id}/{*path}");
    }
    assert(mark("/v1/templates"@) == 13837) by {
        reveal(mark);
        reveal_strlit("/v1/templates");
    }
    assert(mark("/v1/egress/check"@) == 1765776) by {
        reveal(mark);
        reveal_strlit("/v1/egress/check");
    }
    assert(mark("/v1/egress/nftables"@) == 213430419) by {
        reveal(mark);
        reveal_strlit("/v1/egress/nftables");
    }
    assert(mark("/console"@) == 14088) by {
        reveal(mark);
        reveal_strlit("/console");
    }
}

#[verifier::spinoff_prover]
proof fn lemma_marks_8()
    ensures
        mark("/console/"@) == 14729,
        mark("/v1/images/build"@) == 1650960,
        mark("/v1/images/catalog"@) == 217790994,
        mark("/v1/images/catalog/{name}"@) == 3778446833433,
        mark("/v1/images/catalog/{name}/rename"@) == 3778446832288,
        mark("/v1/images/catalog/{name}/clone"@) == 3778446832031,
        mark("/v1/images/catalog/{name}/export"@) == 3778446834720,
        mark("/v1/images/catalog/{name}/read-only"@) == 3778446825123,
        mark("/v1/images/catalog/clean"@) == 3359687520664,
        mark("/v1/pools"@) == 14345,
        mark("/v1/pools/{name}"@) == 2062096,
        mark("/v1/pools/{name}/claim"@) == 26247917974,
{
    assert(mark("/console/"@) == 14729) by {
        reveal(mark);
        reveal_strlit("/console/");
    }
    assert(mark("/v1/images/build"@) == 1650960) by {
        reveal(mark);
        reveal_strlit("/v1/images/build");
    }
    assert(mark("/v1/images/catalog"@) == 217790994) by {
        reveal(mark);
        reveal_strlit("/v1/images/catalog");
    }
    assert(mark("/v1/images/catalog/{name}"@) == 3778446833433) by {
        reveal(mark);
        reveal_strlit("/v1/images/catalog/{name}");
    }
    assert(mark("/v1/images/catalog/{name}/rename"@) == 3778446832288) by {
        reveal(mark);
        reveal_strlit("/v1/images/catalog/{name}/rename");
    }
    assert(mark("/v1/images/catalog/{name}/clone"@) == 3778446832031) by {
        reveal(mark);
        reveal_strlit("/v1/images/catalog/{name}/clone");
    }
    assert(mark("/v1/images/catalog/{name}/export"@) == 3778446834720) by {
        reveal(mark);
        reveal_strlit("/v1/images/catalog/{name}/export");
    }
    assert(mark("/v1/images/catalog/{name}/read-only"@) == 3778446825123) by {
        reveal(mark);
        reveal_strlit("/v1/images/catalog/{name}/read-only");
    }
    assert(mark("/v1/images/catalog/clean"@) == 3359687520664) by {
        reveal(mark);
        reveal_strlit("/v1/images/catalog/clean");
    }
    assert(mark("/v1/pools"@) == 14345) by {
        reveal(mark);
        reveal_strlit("/v1/pools");
    }
    assert(mark("/v1/pools/{name}"@) == 2062096) by {
        reveal(mark);
        reveal_strlit("/v1/pools/{name}");
    }
    assert(mark("/v1/pools/{name}/claim"@) == 26247917974) by {
        reveal(mark);
        reveal_strlit("/v1/pools/{name}/claim");
    }
}

#[verifier::spinoff_prover]
proof fn lemma_marks_9()
    ensures
        mark("/v1/pools/{name}/resize"@) == 3501444788887,
{
    assert(mark("/v1/pools/{name}/resize"@) == 3501444788887) by {
        reveal(mark);
        reveal_strlit("/v1/pools/{name}/resize");
    }
}

#[verifier::spinoff_prover]
proof fn lemma_row(e: Endpoint)
    ensures
        row_of(mark(e.served_at()), e.served_by()) == e.row(),
{
    lemma_marks_0();
    lemma_marks_1();
    lemma_marks_2();
    lemma_marks_3();
    lemma_marks_4();
    lemma_marks_5();
    lemma_marks_6();
    lemma_marks_7();
    lemma_marks_8();
    lemma_marks_9();
}

/// No two requests are served at the same path with the same method.
pub proof fn law_no_two_requests_share_a_place(a: Endpoint, b: Endpoint)
    requires
        a.served_at() == b.served_at(),
        a.served_by() == b.served_by(),
    ensures
        a == b,
{
    lemma_row(a);
    lemma_row(b);
    routes::law_every_request_is_routed(a, 0);
    routes::law_every_request_is_routed(b, 0);
}

// ---------------------------------------------------------------------------
// What belongs together is served together
// ---------------------------------------------------------------------------

/// One machine is served below all of them, and what is made is made where it is listed.
#[verifier::spinoff_prover]
pub proof fn law_collections_and_their_items()
    ensures
        Endpoint::CreateVm.served_at() == Endpoint::ListVms.served_at(),
        Endpoint::GetVm.served_at() == Endpoint::ListVms.served_at() + "/{id}"@,
        Endpoint::DeleteVm.served_at() == Endpoint::GetVm.served_at(),
{
    assert("/v1/vms/{id}"@ == "/v1/vms"@ + "/{id}"@) by {
        reveal_strlit("/v1/vms/{id}");
        reveal_strlit("/v1/vms");
        reveal_strlit("/{id}");
        assert("/v1/vms/{id}"@ =~= "/v1/vms"@ + "/{id}"@);
    }
}

/// Whatever is asked of one machine is served below it, under the name of what is done.
#[verifier::spinoff_prover]
pub proof fn law_requests_to_a_machine()
    ensures
        Endpoint::StartVm.served_at() == Endpoint::GetVm.served_at() + "/start"@,
        Endpoint::StartVmFromSnapshot.served_at() == Endpoint::GetVm.served_at() + "/start-from-snapshot"@,
        Endpoint::SnapshotVm.served_at() == Endpoint::GetVm.served_at() + "/snapshot"@,
        Endpoint::StartMigration.served_at() == Endpoint::GetVm.served_at() + "/migration/start"@,
        Endpoint::MigrationStatus.served_at() == Endpoint::GetVm.served_at() + "/migration/status"@,
        Endpoint::CancelMigration.served_at() == Endpoint::GetVm.served_at() + "/migration/cancel"@,
        Endpoint::StopVm.served_at() == Endpoint::GetVm.served_at() + "/stop"@,
        Endpoint::PauseVm.served_at() == Endpoint::GetVm.served_at() + "/pause"@,
        Endpoint::ResumeVm.served_at() == Endpoint::GetVm.served_at() + "/resume"@,
        Endpoint::SetVmResources.served_at() == Endpoint::GetVm.served_at() + "/resources"@,
        Endpoint::HotplugVmCpu.served_at() == Endpoint::GetVm.served_at() + "/hotplug/cpu"@,
        Endpoint::HotplugVmMemory.served_at() == Endpoint::GetVm.served_at() + "/hotplug/memory"@,
        Endpoint::VmCpuset.served_at() == Endpoint::GetVm.served_at() + "/cpuset"@,
        Endpoint::FreezeVm.served_at() == Endpoint::GetVm.served_at() + "/freeze"@,
        Endpoint::ThawVm.served_at() == Endpoint::GetVm.served_at() + "/thaw"@,
        Endpoint::VmFrozen.served_at() == Endpoint::GetVm.served_at() + "/frozen"@,
        Endpoint::VmStats.served_at() == Endpoint::GetVm.served_at() + "/stats"@,
        Endpoint::VmPressure.served_at() == Endpoint::GetVm.served_at() + "/pressure"@,
        Endpoint::VmLogs.served_at() == Endpoint::GetVm.served_at() + "/logs"@,
        Endpoint::AgentExec.served_at() == Endpoint::GetVm.served_at() + "/agent"@,
        Endpoint::AgentPutFile.served_at() == Endpoint::GetVm.served_at() + "/agent/put-file"@,
        Endpoint::AgentGetFile.served_at() == Endpoint::GetVm.served_at() + "/agent/get-file"@,
        Endpoint::AgentConsole.served_at() == Endpoint::GetVm.served_at() + "/console"@,
{
    assert("/v1/vms/{id}/start"@ == "/v1/vms/{id}"@ + "/start"@) by {
        reveal_strlit("/v1/vms/{id}/start");
        reveal_strlit("/v1/vms/{id}");
        reveal_strlit("/start");
        assert("/v1/vms/{id}/start"@ =~= "/v1/vms/{id}"@ + "/start"@);
    }
    assert("/v1/vms/{id}/start-from-snapshot"@ == "/v1/vms/{id}"@ + "/start-from-snapshot"@) by {
        reveal_strlit("/v1/vms/{id}/start-from-snapshot");
        reveal_strlit("/v1/vms/{id}");
        reveal_strlit("/start-from-snapshot");
        assert("/v1/vms/{id}/start-from-snapshot"@ =~= "/v1/vms/{id}"@ + "/start-from-snapshot"@);
    }
    assert("/v1/vms/{id}/snapshot"@ == "/v1/vms/{id}"@ + "/snapshot"@) by {
        reveal_strlit("/v1/vms/{id}/snapshot");
        reveal_strlit("/v1/vms/{id}");
        reveal_strlit("/snapshot");
        assert("/v1/vms/{id}/snapshot"@ =~= "/v1/vms/{id}"@ + "/snapshot"@);
    }
    assert("/v1/vms/{id}/migration/start"@ == "/v1/vms/{id}"@ + "/migration/start"@) by {
        reveal_strlit("/v1/vms/{id}/migration/start");
        reveal_strlit("/v1/vms/{id}");
        reveal_strlit("/migration/start");
        assert("/v1/vms/{id}/migration/start"@ =~= "/v1/vms/{id}"@ + "/migration/start"@);
    }
    assert("/v1/vms/{id}/migration/status"@ == "/v1/vms/{id}"@ + "/migration/status"@) by {
        reveal_strlit("/v1/vms/{id}/migration/status");
        reveal_strlit("/v1/vms/{id}");
        reveal_strlit("/migration/status");
        assert("/v1/vms/{id}/migration/status"@ =~= "/v1/vms/{id}"@ + "/migration/status"@);
    }
    assert("/v1/vms/{id}/migration/cancel"@ == "/v1/vms/{id}"@ + "/migration/cancel"@) by {
        reveal_strlit("/v1/vms/{id}/migration/cancel");
        reveal_strlit("/v1/vms/{id}");
        reveal_strlit("/migration/cancel");
        assert("/v1/vms/{id}/migration/cancel"@ =~= "/v1/vms/{id}"@ + "/migration/cancel"@);
    }
    assert("/v1/vms/{id}/stop"@ == "/v1/vms/{id}"@ + "/stop"@) by {
        reveal_strlit("/v1/vms/{id}/stop");
        reveal_strlit("/v1/vms/{id}");
        reveal_strlit("/stop");
        assert("/v1/vms/{id}/stop"@ =~= "/v1/vms/{id}"@ + "/stop"@);
    }
    assert("/v1/vms/{id}/pause"@ == "/v1/vms/{id}"@ + "/pause"@) by {
        reveal_strlit("/v1/vms/{id}/pause");
        reveal_strlit("/v1/vms/{id}");
        reveal_strlit("/pause");
        assert("/v1/vms/{id}/pause"@ =~= "/v1/vms/{id}"@ + "/pause"@);
    }
    assert("/v1/vms/{id}/resume"@ == "/v1/vms/{id}"@ + "/resume"@) by {
        reveal_strlit("/v1/vms/{id}/resume");
        reveal_strlit("/v1/vms/{id}");
        reveal_strlit("/resume");
        assert("/v1/vms/{id}/resume"@ =~= "/v1/vms/{id}"@ + "/resume"@);
    }
    assert("/v1/vms/{id}/resources"@ == "/v1/vms/{id}"@ + "/resources"@) by {
        reveal_strlit("/v1/vms/{id}/resources");
        reveal_strlit("/v1/vms/{id}");
        reveal_strlit("/resources");
        assert("/v1/vms/{id}/resources"@ =~= "/v1/vms/{id}"@ + "/resources"@);
    }
    assert("/v1/vms/{id}/hotplug/cpu"@ == "/v1/vms/{id}"@ + "/hotplug/cpu"@) by {
        reveal_strlit("/v1/vms/{id}/hotplug/cpu");
        reveal_strlit("/v1/vms/{id}");
        reveal_strlit("/hotplug/cpu");
        assert("/v1/vms/{id}/hotplug/cpu"@ =~= "/v1/vms/{id}"@ + "/hotplug/cpu"@);
    }
    assert("/v1/vms/{id}/hotplug/memory"@ == "/v1/vms/{id}"@ + "/hotplug/memory"@) by {
        reveal_strlit("/v1/vms/{id}/hotplug/memory");
        reveal_strlit("/v1/vms/{id}");
        reveal_strlit("/hotplug/memory");
        assert("/v1/vms/{id}/hotplug/memory"@ =~= "/v1/vms/{id}"@ + "/hotplug/memory"@);
    }
    assert("/v1/vms/{id}/cpuset"@ == "/v1/vms/{id}"@ + "/cpuset"@) by {
        reveal_strlit("/v1/vms/{id}/cpuset");
        reveal_strlit("/v1/vms/{id}");
        reveal_strlit("/cpuset");
        assert("/v1/vms/{id}/cpuset"@ =~= "/v1/vms/{id}"@ + "/cpuset"@);
    }
    assert("/v1/vms/{id}/freeze"@ == "/v1/vms/{id}"@ + "/freeze"@) by {
        reveal_strlit("/v1/vms/{id}/freeze");
        reveal_strlit("/v1/vms/{id}");
        reveal_strlit("/freeze");
        assert("/v1/vms/{id}/freeze"@ =~= "/v1/vms/{id}"@ + "/freeze"@);
    }
    assert("/v1/vms/{id}/thaw"@ == "/v1/vms/{id}"@ + "/thaw"@) by {
        reveal_strlit("/v1/vms/{id}/thaw");
        reveal_strlit("/v1/vms/{id}");
        reveal_strlit("/thaw");
        assert("/v1/vms/{id}/thaw"@ =~= "/v1/vms/{id}"@ + "/thaw"@);
    }
    assert("/v1/vms/{id}/frozen"@ == "/v1/vms/{id}"@ + "/frozen"@) by {
        reveal_strlit("/v1/vms/{id}/frozen");
        reveal_strlit("/v1/vms/{id}");
        reveal_strlit("/frozen");
        assert("/v1/vms/{id}/frozen"@ =~= "/v1/vms/{id}"@ + "/frozen"@);
    }
    assert("/v1/vms/{id}/stats"@ == "/v1/vms/{id}"@ + "/stats"@) by {
        reveal_strlit("/v1/vms/{id}/stats");
        reveal_strlit("/v1/vms/{id}");
        reveal_strlit("/stats");
        assert("/v1/vms/{id}/stats"@ =~= "/v1/vms/{id}"@ + "/stats"@);
    }
    assert("/v1/vms/{id}/pressure"@ == "/v1/vms/{id}"@ + "/pressure"@) by {
        reveal_strlit("/v1/vms/{id}/pressure");
        reveal_strlit("/v1/vms/{id}");
        reveal_strlit("/pressure");
        assert("/v1/vms/{id}/pressure"@ =~= "/v1/vms/{id}"@ + "/pressure"@);
    }
    assert("/v1/vms/{id}/logs"@ == "/v1/vms/{id}"@ + "/logs"@) by {
        reveal_strlit("/v1/vms/{id}/logs");
        reveal_strlit("/v1/vms/{id}");
        reveal_strlit("/logs");
        assert("/v1/vms/{id}/logs"@ =~= "/v1/vms/{id}"@ + "/logs"@);
    }
    assert("/v1/vms/{id}/agent"@ == "/v1/vms/{id}"@ + "/agent"@) by {
        reveal_strlit("/v1/vms/{id}/agent");
        reveal_strlit("/v1/vms/{id}");
        reveal_strlit("/agent");
        assert("/v1/vms/{id}/agent"@ =~= "/v1/vms/{id}"@ + "/agent"@);
    }
    assert("/v1/vms/{id}/agent/put-file"@ == "/v1/vms/{id}"@ + "/agent/put-file"@) by {
        reveal_strlit("/v1/vms/{id}/agent/put-file");
        reveal_strlit("/v1/vms/{id}");
        reveal_strlit("/agent/put-file");
        assert("/v1/vms/{id}/agent/put-file"@ =~= "/v1/vms/{id}"@ + "/agent/put-file"@);
    }
    assert("/v1/vms/{id}/agent/get-file"@ == "/v1/vms/{id}"@ + "/agent/get-file"@) by {
        reveal_strlit("/v1/vms/{id}/agent/get-file");
        reveal_strlit("/v1/vms/{id}");
        reveal_strlit("/agent/get-file");
        assert("/v1/vms/{id}/agent/get-file"@ =~= "/v1/vms/{id}"@ + "/agent/get-file"@);
    }
    assert("/v1/vms/{id}/console"@ == "/v1/vms/{id}"@ + "/console"@) by {
        reveal_strlit("/v1/vms/{id}/console");
        reveal_strlit("/v1/vms/{id}");
        reveal_strlit("/console");
        assert("/v1/vms/{id}/console"@ =~= "/v1/vms/{id}"@ + "/console"@);
    }
}

/// Whatever is asked of the tools in a guest is served below its machine.
#[verifier::spinoff_prover]
pub proof fn law_requests_to_the_guest_tools()
    ensures
        Endpoint::QgaPing.served_at() == Endpoint::GetVm.served_at() + "/qga/ping"@,
        Endpoint::QgaNetworkInterfaces.served_at() == Endpoint::GetVm.served_at() + "/qga/network-interfaces"@,
        Endpoint::QgaExec.served_at() == Endpoint::GetVm.served_at() + "/qga/exec"@,
        Endpoint::QgaFsfreezeFreeze.served_at() == Endpoint::GetVm.served_at() + "/qga/fsfreeze"@,
        Endpoint::QgaFsfreezeThaw.served_at() == Endpoint::GetVm.served_at() + "/qga/fsthaw"@,
        Endpoint::QgaFsfreezeStatus.served_at() == Endpoint::GetVm.served_at() + "/qga/fsfreeze-status"@,
        Endpoint::QgaFirewallOpen.served_at() == Endpoint::GetVm.served_at() + "/qga/firewall/open"@,
        Endpoint::QgaFirewallClose.served_at() == Endpoint::GetVm.served_at() + "/qga/firewall/close"@,
{
    assert("/v1/vms/{id}/qga/ping"@ == "/v1/vms/{id}"@ + "/qga/ping"@) by {
        reveal_strlit("/v1/vms/{id}/qga/ping");
        reveal_strlit("/v1/vms/{id}");
        reveal_strlit("/qga/ping");
        assert("/v1/vms/{id}/qga/ping"@ =~= "/v1/vms/{id}"@ + "/qga/ping"@);
    }
    assert("/v1/vms/{id}/qga/network-interfaces"@ == "/v1/vms/{id}"@ + "/qga/network-interfaces"@) by {
        reveal_strlit("/v1/vms/{id}/qga/network-interfaces");
        reveal_strlit("/v1/vms/{id}");
        reveal_strlit("/qga/network-interfaces");
        assert("/v1/vms/{id}/qga/network-interfaces"@ =~= "/v1/vms/{id}"@ + "/qga/network-interfaces"@);
    }
    assert("/v1/vms/{id}/qga/exec"@ == "/v1/vms/{id}"@ + "/qga/exec"@) by {
        reveal_strlit("/v1/vms/{id}/qga/exec");
        reveal_strlit("/v1/vms/{id}");
        reveal_strlit("/qga/exec");
        assert("/v1/vms/{id}/qga/exec"@ =~= "/v1/vms/{id}"@ + "/qga/exec"@);
    }
    assert("/v1/vms/{id}/qga/fsfreeze"@ == "/v1/vms/{id}"@ + "/qga/fsfreeze"@) by {
        reveal_strlit("/v1/vms/{id}/qga/fsfreeze");
        reveal_strlit("/v1/vms/{id}");
        reveal_strlit("/qga/fsfreeze");
        assert("/v1/vms/{id}/qga/fsfreeze"@ =~= "/v1/vms/{id}"@ + "/qga/fsfreeze"@);
    }
    assert("/v1/vms/{id}/qga/fsthaw"@ == "/v1/vms/{id}"@ + "/qga/fsthaw"@) by {
        reveal_strlit("/v1/vms/{id}/qga/fsthaw");
        reveal_strlit("/v1/vms/{id}");
        reveal_strlit("/qga/fsthaw");
        assert("/v1/vms/{id}/qga/fsthaw"@ =~= "/v1/vms/{id}"@ + "/qga/fsthaw"@);
    }
    assert("/v1/vms/{id}/qga/fsfreeze-status"@ == "/v1/vms/{id}"@ + "/qga/fsfreeze-status"@) by {
        reveal_strlit("/v1/vms/{id}/qga/fsfreeze-status");
        reveal_strlit("/v1/vms/{id}");
        reveal_strlit("/qga/fsfreeze-status");
        assert("/v1/vms/{id}/qga/fsfreeze-status"@ =~= "/v1/vms/{id}"@ + "/qga/fsfreeze-status"@);
    }
    assert("/v1/vms/{id}/qga/firewall/open"@ == "/v1/vms/{id}"@ + "/qga/firewall/open"@) by {
        reveal_strlit("/v1/vms/{id}/qga/firewall/open");
        reveal_strlit("/v1/vms/{id}");
        reveal_strlit("/qga/firewall/open");
        assert("/v1/vms/{id}/qga/firewall/open"@ =~= "/v1/vms/{id}"@ + "/qga/firewall/open"@);
    }
    assert("/v1/vms/{id}/qga/firewall/close"@ == "/v1/vms/{id}"@ + "/qga/firewall/close"@) by {
        reveal_strlit("/v1/vms/{id}/qga/firewall/close");
        reveal_strlit("/v1/vms/{id}");
        reveal_strlit("/qga/firewall/close");
        assert("/v1/vms/{id}/qga/firewall/close"@ =~= "/v1/vms/{id}"@ + "/qga/firewall/close"@);
    }
}

/// Whatever is asked of the network of a machine is served below the machine.
#[verifier::spinoff_prover]
pub proof fn law_requests_to_the_network_of_a_machine()
    ensures
        Endpoint::VmNetworkStats.served_at() == Endpoint::GetVm.served_at() + "/network/stats"@,
        Endpoint::VmNetworkFlows.served_at() == Endpoint::GetVm.served_at() + "/network/flows"@,
        Endpoint::VmNetworkDropReasons.served_at() == Endpoint::GetVm.served_at() + "/network/drop-reasons"@,
        Endpoint::VmNetworkStatus.served_at() == Endpoint::GetVm.served_at() + "/network/status"@,
        Endpoint::VmNetworkMigrationState.served_at() == Endpoint::GetVm.served_at() + "/network/migration/state"@,
        Endpoint::VmNetworkMigrationQuiesce.served_at() == Endpoint::GetVm.served_at() + "/network/migration/quiesce"@,
        Endpoint::VmNetworkMigrationExport.served_at() == Endpoint::GetVm.served_at() + "/network/migration/export"@,
        Endpoint::VmNetworkMigrationRestore.served_at() == Endpoint::GetVm.served_at() + "/network/migration/restore"@,
        Endpoint::VmNetworkMigrationResume.served_at() == Endpoint::GetVm.served_at() + "/network/migration/resume"@,
        Endpoint::VmNetworkServiceStats.served_at() == Endpoint::GetVm.served_at() + "/network/services/stats"@,
        Endpoint::GetVmNetworkPolicy.served_at() == Endpoint::GetVm.served_at() + "/network/policy"@,
        Endpoint::SetVmNetworkPolicy.served_at() == Endpoint::GetVmNetworkPolicy.served_at(),
        Endpoint::GetVmPodNetworkPolicy.served_at() == Endpoint::GetVm.served_at() + "/network/pod-policy"@,
        Endpoint::SetVmPodNetworkPolicy.served_at() == Endpoint::GetVmPodNetworkPolicy.served_at(),
        Endpoint::ClearVmPodNetworkPolicy.served_at() == Endpoint::GetVmPodNetworkPolicy.served_at(),
        Endpoint::GetVmNetworkEffective.served_at() == Endpoint::GetVm.served_at() + "/network/effective"@,
{
    assert("/v1/vms/{id}/network/stats"@ == "/v1/vms/{id}"@ + "/network/stats"@) by {
        reveal_strlit("/v1/vms/{id}/network/stats");
        reveal_strlit("/v1/vms/{id}");
        reveal_strlit("/network/stats");
        assert("/v1/vms/{id}/network/stats"@ =~= "/v1/vms/{id}"@ + "/network/stats"@);
    }
    assert("/v1/vms/{id}/network/flows"@ == "/v1/vms/{id}"@ + "/network/flows"@) by {
        reveal_strlit("/v1/vms/{id}/network/flows");
        reveal_strlit("/v1/vms/{id}");
        reveal_strlit("/network/flows");
        assert("/v1/vms/{id}/network/flows"@ =~= "/v1/vms/{id}"@ + "/network/flows"@);
    }
    assert("/v1/vms/{id}/network/drop-reasons"@ == "/v1/vms/{id}"@ + "/network/drop-reasons"@) by {
        reveal_strlit("/v1/vms/{id}/network/drop-reasons");
        reveal_strlit("/v1/vms/{id}");
        reveal_strlit("/network/drop-reasons");
        assert("/v1/vms/{id}/network/drop-reasons"@ =~= "/v1/vms/{id}"@ + "/network/drop-reasons"@);
    }
    assert("/v1/vms/{id}/network/status"@ == "/v1/vms/{id}"@ + "/network/status"@) by {
        reveal_strlit("/v1/vms/{id}/network/status");
        reveal_strlit("/v1/vms/{id}");
        reveal_strlit("/network/status");
        assert("/v1/vms/{id}/network/status"@ =~= "/v1/vms/{id}"@ + "/network/status"@);
    }
    assert("/v1/vms/{id}/network/migration/state"@ == "/v1/vms/{id}"@ + "/network/migration/state"@) by {
        reveal_strlit("/v1/vms/{id}/network/migration/state");
        reveal_strlit("/v1/vms/{id}");
        reveal_strlit("/network/migration/state");
        assert("/v1/vms/{id}/network/migration/state"@ =~= "/v1/vms/{id}"@ + "/network/migration/state"@);
    }
    assert("/v1/vms/{id}/network/migration/quiesce"@ == "/v1/vms/{id}"@ + "/network/migration/quiesce"@) by {
        reveal_strlit("/v1/vms/{id}/network/migration/quiesce");
        reveal_strlit("/v1/vms/{id}");
        reveal_strlit("/network/migration/quiesce");
        assert("/v1/vms/{id}/network/migration/quiesce"@ =~= "/v1/vms/{id}"@ + "/network/migration/quiesce"@);
    }
    assert("/v1/vms/{id}/network/migration/export"@ == "/v1/vms/{id}"@ + "/network/migration/export"@) by {
        reveal_strlit("/v1/vms/{id}/network/migration/export");
        reveal_strlit("/v1/vms/{id}");
        reveal_strlit("/network/migration/export");
        assert("/v1/vms/{id}/network/migration/export"@ =~= "/v1/vms/{id}"@ + "/network/migration/export"@);
    }
    assert("/v1/vms/{id}/network/migration/restore"@ == "/v1/vms/{id}"@ + "/network/migration/restore"@) by {
        reveal_strlit("/v1/vms/{id}/network/migration/restore");
        reveal_strlit("/v1/vms/{id}");
        reveal_strlit("/network/migration/restore");
        assert("/v1/vms/{id}/network/migration/restore"@ =~= "/v1/vms/{id}"@ + "/network/migration/restore"@);
    }
    assert("/v1/vms/{id}/network/migration/resume"@ == "/v1/vms/{id}"@ + "/network/migration/resume"@) by {
        reveal_strlit("/v1/vms/{id}/network/migration/resume");
        reveal_strlit("/v1/vms/{id}");
        reveal_strlit("/network/migration/resume");
        assert("/v1/vms/{id}/network/migration/resume"@ =~= "/v1/vms/{id}"@ + "/network/migration/resume"@);
    }
    assert("/v1/vms/{id}/network/services/stats"@ == "/v1/vms/{id}"@ + "/network/services/stats"@) by {
        reveal_strlit("/v1/vms/{id}/network/services/stats");
        reveal_strlit("/v1/vms/{id}");
        reveal_strlit("/network/services/stats");
        assert("/v1/vms/{id}/network/services/stats"@ =~= "/v1/vms/{id}"@ + "/network/services/stats"@);
    }
    assert("/v1/vms/{id}/network/policy"@ == "/v1/vms/{id}"@ + "/network/policy"@) by {
        reveal_strlit("/v1/vms/{id}/network/policy");
        reveal_strlit("/v1/vms/{id}");
        reveal_strlit("/network/policy");
        assert("/v1/vms/{id}/network/policy"@ =~= "/v1/vms/{id}"@ + "/network/policy"@);
    }
    assert("/v1/vms/{id}/network/pod-policy"@ == "/v1/vms/{id}"@ + "/network/pod-policy"@) by {
        reveal_strlit("/v1/vms/{id}/network/pod-policy");
        reveal_strlit("/v1/vms/{id}");
        reveal_strlit("/network/pod-policy");
        assert("/v1/vms/{id}/network/pod-policy"@ =~= "/v1/vms/{id}"@ + "/network/pod-policy"@);
    }
    assert("/v1/vms/{id}/network/effective"@ == "/v1/vms/{id}"@ + "/network/effective"@) by {
        reveal_strlit("/v1/vms/{id}/network/effective");
        reveal_strlit("/v1/vms/{id}");
        reveal_strlit("/network/effective");
        assert("/v1/vms/{id}/network/effective"@ =~= "/v1/vms/{id}"@ + "/network/effective"@);
    }
}

/// Whatever is asked of the services of the network is served below them.
#[verifier::spinoff_prover]
pub proof fn law_requests_to_services()
    ensures
        Endpoint::UpsertNetworkService.served_at() == Endpoint::ListNetworkServices.served_at(),
        Endpoint::NetworkServiceStatus.served_at() == Endpoint::ListNetworkServices.served_at() + "/status"@,
        Endpoint::NetworkServiceStats.served_at() == Endpoint::ListNetworkServices.served_at() + "/stats"@,
        Endpoint::NetworkServiceHealth.served_at() == Endpoint::ListNetworkServices.served_at() + "/health"@,
        Endpoint::ReconcileNetworkServiceHealth.served_at() == Endpoint::ListNetworkServices.served_at() + "/health/reconcile"@,
        Endpoint::GcNetworkServiceConntrack.served_at() == Endpoint::ListNetworkServices.served_at() + "/conntrack/gc"@,
        Endpoint::ReconcileNetworkServicePressure.served_at() == Endpoint::ListNetworkServices.served_at() + "/pressure/reconcile"@,
        Endpoint::NetworkServiceAdvertisements.served_at() == Endpoint::ListNetworkServices.served_at() + "/advertisements"@,
        Endpoint::NetworkServiceFlows.served_at() == Endpoint::ListNetworkServices.served_at() + "/flows"@,
        Endpoint::ExportNetworkServiceTelemetry.served_at() == Endpoint::ListNetworkServices.served_at() + "/telemetry/export"@,
        Endpoint::ListNetworkServicePolicies.served_at() == Endpoint::ListNetworkServices.served_at() + "/policies"@,
        Endpoint::UpsertNetworkServicePolicy.served_at() == Endpoint::ListNetworkServicePolicies.served_at(),
        Endpoint::ReconcileNetworkServicePolicies.served_at() == Endpoint::ListNetworkServices.served_at() + "/policies/reconcile"@,
{
    assert("/v1/network/services/status"@ == "/v1/network/services"@ + "/status"@) by {
        reveal_strlit("/v1/network/services/status");
        reveal_strlit("/v1/network/services");
        reveal_strlit("/status");
        assert("/v1/network/services/status"@ =~= "/v1/network/services"@ + "/status"@);
    }
    assert("/v1/network/services/stats"@ == "/v1/network/services"@ + "/stats"@) by {
        reveal_strlit("/v1/network/services/stats");
        reveal_strlit("/v1/network/services");
        reveal_strlit("/stats");
        assert("/v1/network/services/stats"@ =~= "/v1/network/services"@ + "/stats"@);
    }
    assert("/v1/network/services/health"@ == "/v1/network/services"@ + "/health"@) by {
        reveal_strlit("/v1/network/services/health");
        reveal_strlit("/v1/network/services");
        reveal_strlit("/health");
        assert("/v1/network/services/health"@ =~= "/v1/network/services"@ + "/health"@);
    }
    assert("/v1/network/services/health/reconcile"@ == "/v1/network/services"@ + "/health/reconcile"@) by {
        reveal_strlit("/v1/network/services/health/reconcile");
        reveal_strlit("/v1/network/services");
        reveal_strlit("/health/reconcile");
        assert("/v1/network/services/health/reconcile"@ =~= "/v1/network/services"@ + "/health/reconcile"@);
    }
    assert("/v1/network/services/conntrack/gc"@ == "/v1/network/services"@ + "/conntrack/gc"@) by {
        reveal_strlit("/v1/network/services/conntrack/gc");
        reveal_strlit("/v1/network/services");
        reveal_strlit("/conntrack/gc");
        assert("/v1/network/services/conntrack/gc"@ =~= "/v1/network/services"@ + "/conntrack/gc"@);
    }
    assert("/v1/network/services/pressure/reconcile"@ == "/v1/network/services"@ + "/pressure/reconcile"@) by {
        reveal_strlit("/v1/network/services/pressure/reconcile");
        reveal_strlit("/v1/network/services");
        reveal_strlit("/pressure/reconcile");
        assert("/v1/network/services/pressure/reconcile"@ =~= "/v1/network/services"@ + "/pressure/reconcile"@);
    }
    assert("/v1/network/services/advertisements"@ == "/v1/network/services"@ + "/advertisements"@) by {
        reveal_strlit("/v1/network/services/advertisements");
        reveal_strlit("/v1/network/services");
        reveal_strlit("/advertisements");
        assert("/v1/network/services/advertisements"@ =~= "/v1/network/services"@ + "/advertisements"@);
    }
    assert("/v1/network/services/flows"@ == "/v1/network/services"@ + "/flows"@) by {
        reveal_strlit("/v1/network/services/flows");
        reveal_strlit("/v1/network/services");
        reveal_strlit("/flows");
        assert("/v1/network/services/flows"@ =~= "/v1/network/services"@ + "/flows"@);
    }
    assert("/v1/network/services/telemetry/export"@ == "/v1/network/services"@ + "/telemetry/export"@) by {
        reveal_strlit("/v1/network/services/telemetry/export");
        reveal_strlit("/v1/network/services");
        reveal_strlit("/telemetry/export");
        assert("/v1/network/services/telemetry/export"@ =~= "/v1/network/services"@ + "/telemetry/export"@);
    }
    assert("/v1/network/services/policies"@ == "/v1/network/services"@ + "/policies"@) by {
        reveal_strlit("/v1/network/services/policies");
        reveal_strlit("/v1/network/services");
        reveal_strlit("/policies");
        assert("/v1/network/services/policies"@ =~= "/v1/network/services"@ + "/policies"@);
    }
    assert("/v1/network/services/policies/reconcile"@ == "/v1/network/services"@ + "/policies/reconcile"@) by {
        reveal_strlit("/v1/network/services/policies/reconcile");
        reveal_strlit("/v1/network/services");
        reveal_strlit("/policies/reconcile");
        assert("/v1/network/services/policies/reconcile"@ =~= "/v1/network/services"@ + "/policies/reconcile"@);
    }
}

/// Whatever is asked of one service is served below it.
#[verifier::spinoff_prover]
pub proof fn law_requests_to_a_service()
    ensures
        Endpoint::GetNetworkServicePolicy.served_at() == Endpoint::GetNetworkService.served_at() + "/policy"@,
        Endpoint::DeleteNetworkServicePolicy.served_at() == Endpoint::GetNetworkServicePolicy.served_at(),
        Endpoint::NetworkServiceEnvoyContract.served_at() == Endpoint::GetNetworkService.served_at() + "/l7/envoy"@,
        Endpoint::ExportNetworkServiceConntrack.served_at() == Endpoint::GetNetworkService.served_at() + "/conntrack/export"@,
        Endpoint::ImportNetworkServiceConntrack.served_at() == Endpoint::GetNetworkService.served_at() + "/conntrack/import"@,
        Endpoint::ExportNetworkServiceConntrackDelta.served_at() == Endpoint::GetNetworkService.served_at() + "/conntrack/delta"@,
        Endpoint::ImportNetworkServiceConntrackDelta.served_at() == Endpoint::GetNetworkService.served_at() + "/conntrack/delta/import"@,
        Endpoint::AckNetworkServiceConntrackDelta.served_at() == Endpoint::GetNetworkService.served_at() + "/conntrack/delta/ack"@,
        Endpoint::DeleteNetworkService.served_at() == Endpoint::GetNetworkService.served_at(),
{
    assert("/v1/network/services/{name}/policy"@ == "/v1/network/services/{name}"@ + "/policy"@) by {
        reveal_strlit("/v1/network/services/{name}/policy");
        reveal_strlit("/v1/network/services/{name}");
        reveal_strlit("/policy");
        assert("/v1/network/services/{name}/policy"@ =~= "/v1/network/services/{name}"@ + "/policy"@);
    }
    assert("/v1/network/services/{name}/l7/envoy"@ == "/v1/network/services/{name}"@ + "/l7/envoy"@) by {
        reveal_strlit("/v1/network/services/{name}/l7/envoy");
        reveal_strlit("/v1/network/services/{name}");
        reveal_strlit("/l7/envoy");
        assert("/v1/network/services/{name}/l7/envoy"@ =~= "/v1/network/services/{name}"@ + "/l7/envoy"@);
    }
    assert("/v1/network/services/{name}/conntrack/export"@ == "/v1/network/services/{name}"@ + "/conntrack/export"@) by {
        reveal_strlit("/v1/network/services/{name}/conntrack/export");
        reveal_strlit("/v1/network/services/{name}");
        reveal_strlit("/conntrack/export");
        assert("/v1/network/services/{name}/conntrack/export"@ =~= "/v1/network/services/{name}"@ + "/conntrack/export"@);
    }
    assert("/v1/network/services/{name}/conntrack/import"@ == "/v1/network/services/{name}"@ + "/conntrack/import"@) by {
        reveal_strlit("/v1/network/services/{name}/conntrack/import");
        reveal_strlit("/v1/network/services/{name}");
        reveal_strlit("/conntrack/import");
        assert("/v1/network/services/{name}/conntrack/import"@ =~= "/v1/network/services/{name}"@ + "/conntrack/import"@);
    }
    assert("/v1/network/services/{name}/conntrack/delta"@ == "/v1/network/services/{name}"@ + "/conntrack/delta"@) by {
        reveal_strlit("/v1/network/services/{name}/conntrack/delta");
        reveal_strlit("/v1/network/services/{name}");
        reveal_strlit("/conntrack/delta");
        assert("/v1/network/services/{name}/conntrack/delta"@ =~= "/v1/network/services/{name}"@ + "/conntrack/delta"@);
    }
    assert("/v1/network/services/{name}/conntrack/delta/import"@ == "/v1/network/services/{name}"@ + "/conntrack/delta/import"@) by {
        reveal_strlit("/v1/network/services/{name}/conntrack/delta/import");
        reveal_strlit("/v1/network/services/{name}");
        reveal_strlit("/conntrack/delta/import");
        assert("/v1/network/services/{name}/conntrack/delta/import"@ =~= "/v1/network/services/{name}"@ + "/conntrack/delta/import"@);
    }
    assert("/v1/network/services/{name}/conntrack/delta/ack"@ == "/v1/network/services/{name}"@ + "/conntrack/delta/ack"@) by {
        reveal_strlit("/v1/network/services/{name}/conntrack/delta/ack");
        reveal_strlit("/v1/network/services/{name}");
        reveal_strlit("/conntrack/delta/ack");
        assert("/v1/network/services/{name}/conntrack/delta/ack"@ =~= "/v1/network/services/{name}"@ + "/conntrack/delta/ack"@);
    }
}

/// Groups of the network are kept in one place.
#[verifier::spinoff_prover]
pub proof fn law_requests_to_network_groups()
    ensures
        Endpoint::UpsertNetworkGroup.served_at() == Endpoint::ListNetworkGroups.served_at(),
        Endpoint::GetNetworkGroup.served_at() == Endpoint::ListNetworkGroups.served_at() + "/{name}"@,
        Endpoint::DeleteNetworkGroup.served_at() == Endpoint::GetNetworkGroup.served_at(),
{
    assert("/v1/network/groups/{name}"@ == "/v1/network/groups"@ + "/{name}"@) by {
        reveal_strlit("/v1/network/groups/{name}");
        reveal_strlit("/v1/network/groups");
        reveal_strlit("/{name}");
        assert("/v1/network/groups/{name}"@ =~= "/v1/network/groups"@ + "/{name}"@);
    }
}

/// Policies of the network are kept in one place.
#[verifier::spinoff_prover]
pub proof fn law_requests_to_network_policies()
    ensures
        Endpoint::ApplyCnp.served_at() == Endpoint::ListCnp.served_at(),
        Endpoint::GetCnp.served_at() == Endpoint::ListCnp.served_at() + "/{name}"@,
        Endpoint::DeleteCnp.served_at() == Endpoint::GetCnp.served_at(),
{
    assert("/v1/network/cnp/{name}"@ == "/v1/network/cnp"@ + "/{name}"@) by {
        reveal_strlit("/v1/network/cnp/{name}");
        reveal_strlit("/v1/network/cnp");
        reveal_strlit("/{name}");
        assert("/v1/network/cnp/{name}"@ =~= "/v1/network/cnp"@ + "/{name}"@);
    }
}

/// Known addresses of the network are kept in one place.
#[verifier::spinoff_prover]
pub proof fn law_requests_to_addresses()
    ensures
        Endpoint::UpsertRemoteIpcache.served_at() == Endpoint::NetworkIpcache.served_at() + "/remote"@,
        Endpoint::DeleteRemoteIpcache.served_at() == Endpoint::NetworkIpcache.served_at() + "/remote/{identity}"@,
{
    assert("/v1/network/ipcache/remote"@ == "/v1/network/ipcache"@ + "/remote"@) by {
        reveal_strlit("/v1/network/ipcache/remote");
        reveal_strlit("/v1/network/ipcache");
        reveal_strlit("/remote");
        assert("/v1/network/ipcache/remote"@ =~= "/v1/network/ipcache"@ + "/remote"@);
    }
    assert("/v1/network/ipcache/remote/{identity}"@ == "/v1/network/ipcache"@ + "/remote/{identity}"@) by {
        reveal_strlit("/v1/network/ipcache/remote/{identity}");
        reveal_strlit("/v1/network/ipcache");
        reveal_strlit("/remote/{identity}");
        assert("/v1/network/ipcache/remote/{identity}"@ =~= "/v1/network/ipcache"@ + "/remote/{identity}"@);
    }
}

/// Flows are told as values and as text in one place.
#[verifier::spinoff_prover]
pub proof fn law_requests_to_flows()
    ensures
        Endpoint::HubbleFlowsText.served_at() == Endpoint::HubbleFlows.served_at() + "/text"@,
{
    assert("/v1/network/hubble/flows/text"@ == "/v1/network/hubble/flows"@ + "/text"@) by {
        reveal_strlit("/v1/network/hubble/flows/text");
        reveal_strlit("/v1/network/hubble/flows");
        reveal_strlit("/text");
        assert("/v1/network/hubble/flows/text"@ =~= "/v1/network/hubble/flows"@ + "/text"@);
    }
}

/// Sandboxes are made where they are listed, and used below that.
#[verifier::spinoff_prover]
pub proof fn law_requests_to_sandboxes()
    ensures
        Endpoint::CreateSandbox.served_at() == Endpoint::ListSandboxes.served_at(),
        Endpoint::SnapshotSandbox.served_at() == Endpoint::ListSandboxes.served_at() + "/{id}/snapshot"@,
        Endpoint::SandboxFsRead.served_at() == Endpoint::ListSandboxes.served_at() + "/{id}/fs/read"@,
        Endpoint::SandboxFsWrite.served_at() == Endpoint::ListSandboxes.served_at() + "/{id}/fs/write"@,
        Endpoint::SandboxProcess.served_at() == Endpoint::ListSandboxes.served_at() + "/{id}/process"@,
        Endpoint::SandboxHttpProxy.served_at() == Endpoint::ListSandboxes.served_at() + "/{id}/http/{port}/{*path}"@,
{
    assert("/v1/sandboxes/{id}/snapshot"@ == "/v1/sandboxes"@ + "/{id}/snapshot"@) by {
        reveal_strlit("/v1/sandboxes/{id}/snapshot");
        reveal_strlit("/v1/sandboxes");
        reveal_strlit("/{id}/snapshot");
        assert("/v1/sandboxes/{id}/snapshot"@ =~= "/v1/sandboxes"@ + "/{id}/snapshot"@);
    }
    assert("/v1/sandboxes/{id}/fs/read"@ == "/v1/sandboxes"@ + "/{id}/fs/read"@) by {
        reveal_strlit("/v1/sandboxes/{id}/fs/read");
        reveal_strlit("/v1/sandboxes");
        reveal_strlit("/{id}/fs/read");
        assert("/v1/sandboxes/{id}/fs/read"@ =~= "/v1/sandboxes"@ + "/{id}/fs/read"@);
    }
    assert("/v1/sandboxes/{id}/fs/write"@ == "/v1/sandboxes"@ + "/{id}/fs/write"@) by {
        reveal_strlit("/v1/sandboxes/{id}/fs/write");
        reveal_strlit("/v1/sandboxes");
        reveal_strlit("/{id}/fs/write");
        assert("/v1/sandboxes/{id}/fs/write"@ =~= "/v1/sandboxes"@ + "/{id}/fs/write"@);
    }
    assert("/v1/sandboxes/{id}/process"@ == "/v1/sandboxes"@ + "/{id}/process"@) by {
        reveal_strlit("/v1/sandboxes/{id}/process");
        reveal_strlit("/v1/sandboxes");
        reveal_strlit("/{id}/process");
        assert("/v1/sandboxes/{id}/process"@ =~= "/v1/sandboxes"@ + "/{id}/process"@);
    }
    assert("/v1/sandboxes/{id}/http/{port}/{*path}"@ == "/v1/sandboxes"@ + "/{id}/http/{port}/{*path}"@) by {
        reveal_strlit("/v1/sandboxes/{id}/http/{port}/{*path}");
        reveal_strlit("/v1/sandboxes");
        reveal_strlit("/{id}/http/{port}/{*path}");
        assert("/v1/sandboxes/{id}/http/{port}/{*path}"@ =~= "/v1/sandboxes"@ + "/{id}/http/{port}/{*path}"@);
    }
}

/// Images are added where they are listed, and each is served below that.
#[verifier::spinoff_prover]
pub proof fn law_requests_to_the_catalog()
    ensures
        Endpoint::AddCatalogEntry.served_at() == Endpoint::ListCatalog.served_at(),
        Endpoint::RemoveCatalogEntry.served_at() == Endpoint::ListCatalog.served_at() + "/{name}"@,
        Endpoint::RenameCatalogEntry.served_at() == Endpoint::ListCatalog.served_at() + "/{name}/rename"@,
        Endpoint::CloneCatalogEntry.served_at() == Endpoint::ListCatalog.served_at() + "/{name}/clone"@,
        Endpoint::ExportCatalogEntry.served_at() == Endpoint::ListCatalog.served_at() + "/{name}/export"@,
        Endpoint::SetCatalogReadOnly.served_at() == Endpoint::ListCatalog.served_at() + "/{name}/read-only"@,
        Endpoint::CleanCatalog.served_at() == Endpoint::ListCatalog.served_at() + "/clean"@,
{
    assert("/v1/images/catalog/{name}"@ == "/v1/images/catalog"@ + "/{name}"@) by {
        reveal_strlit("/v1/images/catalog/{name}");
        reveal_strlit("/v1/images/catalog");
        reveal_strlit("/{name}");
        assert("/v1/images/catalog/{name}"@ =~= "/v1/images/catalog"@ + "/{name}"@);
    }
    assert("/v1/images/catalog/{name}/rename"@ == "/v1/images/catalog"@ + "/{name}/rename"@) by {
        reveal_strlit("/v1/images/catalog/{name}/rename");
        reveal_strlit("/v1/images/catalog");
        reveal_strlit("/{name}/rename");
        assert("/v1/images/catalog/{name}/rename"@ =~= "/v1/images/catalog"@ + "/{name}/rename"@);
    }
    assert("/v1/images/catalog/{name}/clone"@ == "/v1/images/catalog"@ + "/{name}/clone"@) by {
        reveal_strlit("/v1/images/catalog/{name}/clone");
        reveal_strlit("/v1/images/catalog");
        reveal_strlit("/{name}/clone");
        assert("/v1/images/catalog/{name}/clone"@ =~= "/v1/images/catalog"@ + "/{name}/clone"@);
    }
    assert("/v1/images/catalog/{name}/export"@ == "/v1/images/catalog"@ + "/{name}/export"@) by {
        reveal_strlit("/v1/images/catalog/{name}/export");
        reveal_strlit("/v1/images/catalog");
        reveal_strlit("/{name}/export");
        assert("/v1/images/catalog/{name}/export"@ =~= "/v1/images/catalog"@ + "/{name}/export"@);
    }
    assert("/v1/images/catalog/{name}/read-only"@ == "/v1/images/catalog"@ + "/{name}/read-only"@) by {
        reveal_strlit("/v1/images/catalog/{name}/read-only");
        reveal_strlit("/v1/images/catalog");
        reveal_strlit("/{name}/read-only");
        assert("/v1/images/catalog/{name}/read-only"@ =~= "/v1/images/catalog"@ + "/{name}/read-only"@);
    }
    assert("/v1/images/catalog/clean"@ == "/v1/images/catalog"@ + "/clean"@) by {
        reveal_strlit("/v1/images/catalog/clean");
        reveal_strlit("/v1/images/catalog");
        reveal_strlit("/clean");
        assert("/v1/images/catalog/clean"@ =~= "/v1/images/catalog"@ + "/clean"@);
    }
}

/// Pools are made where they are listed, and each is served below that.
#[verifier::spinoff_prover]
pub proof fn law_requests_to_pools()
    ensures
        Endpoint::CreatePool.served_at() == Endpoint::ListPools.served_at(),
        Endpoint::GetPool.served_at() == Endpoint::ListPools.served_at() + "/{name}"@,
        Endpoint::DeletePool.served_at() == Endpoint::GetPool.served_at(),
        Endpoint::ClaimPool.served_at() == Endpoint::ListPools.served_at() + "/{name}/claim"@,
        Endpoint::ResizePool.served_at() == Endpoint::ListPools.served_at() + "/{name}/resize"@,
{
    assert("/v1/pools/{name}"@ == "/v1/pools"@ + "/{name}"@) by {
        reveal_strlit("/v1/pools/{name}");
        reveal_strlit("/v1/pools");
        reveal_strlit("/{name}");
        assert("/v1/pools/{name}"@ =~= "/v1/pools"@ + "/{name}"@);
    }
    assert("/v1/pools/{name}/claim"@ == "/v1/pools"@ + "/{name}/claim"@) by {
        reveal_strlit("/v1/pools/{name}/claim");
        reveal_strlit("/v1/pools");
        reveal_strlit("/{name}/claim");
        assert("/v1/pools/{name}/claim"@ =~= "/v1/pools"@ + "/{name}/claim"@);
    }
    assert("/v1/pools/{name}/resize"@ == "/v1/pools"@ + "/{name}/resize"@) by {
        reveal_strlit("/v1/pools/{name}/resize");
        reveal_strlit("/v1/pools");
        reveal_strlit("/{name}/resize");
        assert("/v1/pools/{name}/resize"@ =~= "/v1/pools"@ + "/{name}/resize"@);
    }
}

/// Templates are built where they are listed.
#[verifier::spinoff_prover]
pub proof fn law_requests_to_templates()
    ensures
        Endpoint::BuildTemplate.served_at() == Endpoint::ListTemplates.served_at(),
{
}

} // verus!
