//! The screen registry: which raw control handles are really displays.
//!
//! Probing every bus exposed by the system yields, per handle, a bus name, an
//! identity-block read and a brightness query, any of which can have failed.
//! The registry keeps a handle only when its bus can structurally carry a
//! monitor, its identity block parses, and that block names a product; a
//! failed brightness query degrades to current 0 with maximum 100 rather
//! than rejecting the handle.  A caller-supplied ignore list then removes
//! named screens, and an override table can cap a product's default
//! brightness below the device maximum.

use crate::identity::{edid_parse, product_name_of, IdentityRecord};
use crate::identity::{find_product_name, parse_identity_block};
use crate::names::{bytes_eq, bytes_start_with, contains_name, name_in_list, starts_with};
use vstd::prelude::*;
use vstd::string::StrSliceExecFns;
use vstd::string::StringSliceAdditionalSpecFns;

verus! {

/// What probing one raw control handle yielded, as plain values: the bus
/// name attribute, the raw identity block, and the brightness query's
/// (current, maximum) answer.  `None` stands for a failed or absent read.
pub struct DeviceProbe {
    pub bus_name: Option<Vec<u8>>,
    pub identity_bytes: Option<Vec<u8>>,
    pub brightness: Option<(u16, u16)>,
}

/// The mathematical shape of a probe.
pub struct ProbeModel {
    pub bus_name: Option<Seq<u8>>,
    pub identity_bytes: Option<Seq<u8>>,
    pub brightness: Option<(u16, u16)>,
}

impl View for DeviceProbe {
    type V = ProbeModel;

    open spec fn view(&self) -> ProbeModel {
        ProbeModel {
            bus_name: match self.bus_name {
                Some(b) => Some(b@),
                None => None,
            },
            identity_bytes: match self.identity_bytes {
                Some(b) => Some(b@),
                None => None,
            },
            brightness: self.brightness,
        }
    }
}

/// One entry of the default-brightness override table: screens with this
/// product name get the given default instead of the device maximum.
pub struct BrightnessOverride {
    pub product_name: Vec<u8>,
    pub default_brightness: u16,
}

/// A controllable display.  `device` is the index of the probe (and so of
/// the caller's control handle) the screen came from; `placement` is set
/// once by the topology matcher and left alone afterwards.
pub struct Screen {
    pub device: usize,
    pub identity: IdentityRecord,
    pub name: Vec<u8>,
    pub default_brightness: u16,
    pub current_brightness: u16,
    pub placement: Option<usize>,
}

/// The mathematical shape of a screen.
pub struct ScreenModel {
    pub device: usize,
    pub identity: IdentityRecord,
    pub name: Seq<u8>,
    pub default_brightness: u16,
    pub current_brightness: u16,
    pub placement: Option<usize>,
}

impl View for Screen {
    type V = ScreenModel;

    open spec fn view(&self) -> ScreenModel {
        ScreenModel {
            device: self.device,
            identity: self.identity,
            name: self.name@,
            default_brightness: self.default_brightness,
            current_brightness: self.current_brightness,
            placement: self.placement,
        }
    }
}

/// A bus whose name begins with one of these prefixes structurally cannot
/// carry a monitor and is never probed further.
pub open spec fn ignored_bus_prefix(name: Seq<u8>) -> bool {
    ||| starts_with(name, "SMBus".spec_bytes())
    ||| starts_with(name, "soc:i2cdsi".spec_bytes())
    ||| starts_with(name, "smu".spec_bytes())
    ||| starts_with(name, "mac-io".spec_bytes())
    ||| starts_with(name, "u4".spec_bytes())
}

/// Whether a bus name carries one of the known non-display prefixes.
pub fn bus_name_ignored(name: &Vec<u8>) -> (r: bool)
    ensures
        r == ignored_bus_prefix(name@),
{
    bytes_start_with(name, &"SMBus".as_bytes_vec()) || bytes_start_with(
        name,
        &"soc:i2cdsi".as_bytes_vec(),
    ) || bytes_start_with(name, &"smu".as_bytes_vec()) || bytes_start_with(
        name,
        &"mac-io".as_bytes_vec(),
    ) || bytes_start_with(name, &"u4".as_bytes_vec())
}

/// Current brightness, with a failed query degrading to 0.
pub open spec fn current_of(b: Option<(u16, u16)>) -> u16 {
    match b {
        Some(v) => v.0,
        None => 0,
    }
}

/// Maximum brightness, with a failed query degrading to 100.
pub open spec fn max_of(b: Option<(u16, u16)>) -> u16 {
    match b {
        Some(v) => v.1,
        None => 100,
    }
}

/// The default brightness for `name`: the first matching override's value,
/// else the fallback (the device maximum).
pub open spec fn override_default(
    overrides: Seq<BrightnessOverride>,
    name: Seq<u8>,
    fallback: u16,
) -> u16
    decreases overrides.len(),
{
    if overrides.len() == 0 {
        fallback
    } else if overrides[0].product_name@ == name {
        overrides[0].default_brightness
    } else {
        override_default(overrides.drop_first(), name, fallback)
    }
}

/// Looks `name` up in the override table.
pub fn default_for(overrides: &Vec<BrightnessOverride>, name: &Vec<u8>, fallback: u16) -> (r: u16)
    ensures
        r == override_default(overrides@, name@, fallback),
{
    let n: usize = overrides.len();
    let mut k: usize = 0;
    proof {
        assert(overrides@.skip(0) =~= overrides@);
    }
    while k < n
        invariant
            n == overrides@.len(),
            k <= n,
            override_default(overrides@.skip(k as int), name@, fallback) == override_default(
                overrides@,
                name@,
                fallback,
            ),
        decreases n - k,
    {
        proof {
            assert(overrides@.skip(k as int)[0] == overrides@[k as int]);
        }
        if bytes_eq(&overrides[k].product_name, name) {
            return overrides[k].default_brightness;
        }
        proof {
            assert(overrides@.skip(k as int).drop_first() =~= overrides@.skip(k as int + 1));
        }
        k += 1;
    }
    proof {
        assert(overrides@.skip(n as int) =~= Seq::<BrightnessOverride>::empty());
    }
    fallback
}

/// The screen a probe gives rise to, if any: the bus must not be filtered,
/// the identity block must be present, whole and parse, and the block must
/// name a product.
pub open spec fn screen_of_probe(
    p: ProbeModel,
    device: usize,
    overrides: Seq<BrightnessOverride>,
) -> Option<ScreenModel> {
    match p.bus_name {
        None => None,
        Some(bus) => if ignored_bus_prefix(bus) {
            None
        } else {
            match p.identity_bytes {
                None => None,
                Some(bytes) => if bytes.len() < 128 {
                    None
                } else {
                    match edid_parse(bytes) {
                        None => None,
                        Some(block) => match product_name_of(block.descriptors) {
                            None => None,
                            Some(name) => Some(
                                ScreenModel {
                                    device,
                                    identity: block.record,
                                    name,
                                    default_brightness: override_default(
                                        overrides,
                                        name,
                                        max_of(p.brightness),
                                    ),
                                    current_brightness: current_of(p.brightness),
                                    placement: None,
                                },
                            ),
                        },
                    }
                },
            }
        },
    }
}

/// Decides what `screen_of_probe` says, on real values.
pub fn probe_screen(p: &DeviceProbe, device: usize, overrides: &Vec<BrightnessOverride>) -> (r:
    Option<Screen>)
    ensures
        match r {
            Some(s) => screen_of_probe(p@, device, overrides@) == Some(s@),
            None => screen_of_probe(p@, device, overrides@) is None,
        },
{
    let bus = match &p.bus_name {
        Some(b) => b,
        None => {
            return None;
        },
    };
    if bus_name_ignored(bus) {
        return None;
    }
    let bytes = match &p.identity_bytes {
        Some(b) => b,
        None => {
            return None;
        },
    };
    if bytes.len() < 128 {
        return None;
    }
    let block = match parse_identity_block(bytes) {
        Some(b) => b,
        None => {
            return None;
        },
    };
    let name = match find_product_name(&block.descriptors) {
        Some(n) => n,
        None => {
            return None;
        },
    };
    let (current, maximum) = match &p.brightness {
        Some(v) => (v.0, v.1),
        None => (0u16, 100u16),
    };
    let default_brightness = default_for(overrides, &name, maximum);
    Some(
        Screen {
            device,
            identity: block.record,
            name,
            default_brightness,
            current_brightness: current,
            placement: None,
        },
    )
}

/// The whole registry: every probe's screen, in probe order, with screens
/// named by the ignore list removed.
pub open spec fn registry_of(
    probes: Seq<ProbeModel>,
    ignore: Seq<Vec<u8>>,
    overrides: Seq<BrightnessOverride>,
) -> Seq<ScreenModel>
    decreases probes.len(),
{
    if probes.len() == 0 {
        Seq::empty()
    } else {
        let prefix = registry_of(probes.drop_last(), ignore, overrides);
        match screen_of_probe(probes.last(), (probes.len() - 1) as usize, overrides) {
            None => prefix,
            Some(s) => if contains_name(ignore, s.name) {
                prefix
            } else {
                prefix.push(s)
            },
        }
    }
}

/// Every screen the registry holds came from the probe its device index
/// names, and that probe gave rise to exactly this screen.
pub proof fn lemma_registry_devices(
    probes: Seq<ProbeModel>,
    ignore: Seq<Vec<u8>>,
    overrides: Seq<BrightnessOverride>,
    k: int,
)
    requires
        probes.len() <= usize::MAX,
        0 <= k < registry_of(probes, ignore, overrides).len(),
    ensures
        ({
            let s = registry_of(probes, ignore, overrides)[k];
            &&& (s.device as int) < probes.len()
            &&& screen_of_probe(probes[s.device as int], s.device, overrides) == Some(s)
        }),
    decreases probes.len(),
{
    if probes.len() > 0 {
        let prefix = registry_of(probes.drop_last(), ignore, overrides);
        let whole = registry_of(probes, ignore, overrides);
        if k < prefix.len() {
            lemma_registry_devices(probes.drop_last(), ignore, overrides, k);
            assert(whole[k] == prefix[k]);
            let s = prefix[k];
            assert(probes.drop_last()[s.device as int] == probes[s.device as int]);
        } else {
            let s = whole[k];
            assert(Some(s) == screen_of_probe(
                probes.last(),
                (probes.len() - 1) as usize,
                overrides,
            ));
            assert(probes.last() == probes[probes.len() - 1]);
        }
    }
}

/// Law (filtering): a probe whose bus name begins with a filtered prefix —
/// `SMBus` among them — never appears in the registry, even where its
/// identity read would otherwise have succeeded: no screen carries its
/// index.
pub proof fn lemma_filtered_bus_never_registered(
    probes: Seq<ProbeModel>,
    ignore: Seq<Vec<u8>>,
    overrides: Seq<BrightnessOverride>,
    i: int,
    k: int,
)
    requires
        probes.len() <= usize::MAX,
        0 <= i < probes.len(),
        probes[i].bus_name matches Some(bus) && ignored_bus_prefix(bus),
        0 <= k < registry_of(probes, ignore, overrides).len(),
    ensures
        (registry_of(probes, ignore, overrides)[k].device as int) != i,
{
    lemma_registry_devices(probes, ignore, overrides, k);
}

/// Builds the screen list from the probes.
pub fn build_screens(
    probes: &Vec<DeviceProbe>,
    ignore: &Vec<Vec<u8>>,
    overrides: &Vec<BrightnessOverride>,
) -> (r: Vec<Screen>)
    ensures
        r@.map(|i: int, s: Screen| s@) == registry_of(
            probes@.map(|i: int, p: DeviceProbe| p@),
            ignore@,
            overrides@,
        ),
{
    let ghost pm = probes@.map(|i: int, p: DeviceProbe| p@);
    let n: usize = probes.len();
    let mut out: Vec<Screen> = Vec::new();
    let mut k: usize = 0;
    proof {
        assert(pm.take(0) =~= Seq::<ProbeModel>::empty());
        assert(out@.map(|i: int, s: Screen| s@) =~= Seq::<ScreenModel>::empty());
    }
    while k < n
        invariant
            n == probes@.len(),
            pm == probes@.map(|i: int, p: DeviceProbe| p@),
            k <= n,
            out@.map(|i: int, s: Screen| s@) == registry_of(pm.take(k as int), ignore@, overrides@),
        decreases n - k,
    {
        let ghost before = out@.map(|i: int, s: Screen| s@);
        match probe_screen(&probes[k], k, overrides) {
            Some(s) => {
                if !name_in_list(ignore, &s.name) {
                    out.push(s);
                }
            },
            None => {},
        }
        proof {
            assert(pm.take(k as int + 1).drop_last() =~= pm.take(k as int));
            assert(pm.take(k as int + 1).last() == pm[k as int]);
            assert(out@.map(|i: int, s: Screen| s@) =~= registry_of(
                pm.take(k as int + 1),
                ignore@,
                overrides@,
            ));
        }
        k += 1;
    }
    proof {
        assert(pm.take(n as int) =~= pm);
    }
    out
}

} // verus!
