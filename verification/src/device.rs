//! Device subscription logic: which devices to snoop on, and which event
//! codes to subscribe to for each of a device's input classes.
//!
//! A device is a transient server-side object identified by an 8-bit ID.
//! Opening it yields a list of input classes (key, valuator, button, ...),
//! each carrying a base event-type code. From those, the library computes
//! the packed event codes that one subscription request should cover:
//! key classes contribute the release code (base plus one) alone, and
//! valuator and button classes contribute their codes only in legacy mode,
//! since raw motion and raw button events supersede them.

use vstd::prelude::*;

verus! {

/// The protocol extension's event class code for device-presence
/// notifications, subscribed on the root window at startup.
pub const DEVICE_PRESENCE_CLASS: u32 = 0x10000;

/// Lowest major version of the cursor-visibility extension that the agent
/// can work with.
pub const XFIXES_MAJOR_REQUIRED: u32 = 4;

/// Whether a reported cursor-visibility extension version is recent enough.
/// A version below the minimum is a fatal configuration error at startup.
pub fn xfixes_version_sufficient(major_version: u32) -> (r: bool)
    ensures
        r == (major_version >= XFIXES_MAJOR_REQUIRED),
{
    major_version >= XFIXES_MAJOR_REQUIRED
}

/// The role a device declares in the device list.
#[derive(Clone, Copy, Debug, PartialEq, Eq, Structural)]
pub enum DeviceRole {
    IsXPointer,
    IsXKeyboard,
    IsXExtensionDevice,
    IsXExtensionKeyboard,
    IsXExtensionPointer,
}

/// Only extension keyboards and extension pointers are snooped on; core and
/// other roles are skipped during enumeration.
pub open spec fn spec_should_snoop(role: DeviceRole) -> bool {
    role is IsXExtensionKeyboard || role is IsXExtensionPointer
}

/// Decides whether a device with the given role is subscribed to at all.
pub fn should_snoop_device(role: DeviceRole) -> (r: bool)
    ensures
        r == spec_should_snoop(role),
{
    match role {
        DeviceRole::IsXExtensionKeyboard => true,
        DeviceRole::IsXExtensionPointer => true,
        _ => false,
    }
}

/// The kind of one input class a device reports when opened.
#[derive(Clone, Copy, Debug, PartialEq, Eq, Structural)]
pub enum InputClassKind {
    Key,
    Valuator,
    Button,
    Other,
}

/// One input class of an opened device: its kind and the base event-type
/// code the server assigned to it.
#[derive(Clone, Copy, Debug, PartialEq, Eq, Structural)]
pub struct ClassInfo {
    pub kind: InputClassKind,
    pub event_type_base: u8,
}

/// The packed operand of a device-scoped subscription request: device ID in
/// the high byte, event-type code in the low byte.
pub open spec fn spec_event_code(device_id: u8, event_type: u8) -> u32 {
    (device_id as u32) << 8u32 | (event_type as u32)
}

/// Packs a device ID and an event-type code into one subscription operand.
pub fn make_event_code(device_id: u8, event_type: u8) -> (r: u32)
    ensures
        r == spec_event_code(device_id, event_type),
        r == device_id as u32 * 256 + event_type as u32,
{
    proof {
        assert(forall|d: u8, e: u8|
            #[trigger] ((d as u32) << 8u32 | (e as u32)) == d as u32 * 256 + e as u32)
            by (bit_vector);
    }
    (device_id as u32) << 8 | (event_type as u32)
}

/// A key or button class must leave room for its release code, which is the
/// base event-type plus one and still has to fit in the 8-bit event-type
/// field.
pub open spec fn spec_class_base_in_range(c: ClassInfo) -> bool {
    (c.kind is Key || c.kind is Button) ==> c.event_type_base < 255
}

/// The event codes one input class contributes:
/// - a key class contributes the key-release code alone (base plus one);
///   press events are never needed, because activity is evaluated on release;
/// - a valuator class contributes nothing when raw motion is available, and
///   its base (motion) code otherwise;
/// - a button class contributes nothing when raw motion is available, and
///   its press and release codes (base, base plus one) otherwise;
/// - every other class kind contributes nothing.
pub open spec fn spec_class_codes(raw_motion: bool, device_id: u8, c: ClassInfo) -> Seq<u32> {
    match c.kind {
        InputClassKind::Key => seq![
            spec_event_code(device_id, (c.event_type_base + 1) as u8),
        ],
        InputClassKind::Valuator => if raw_motion {
            Seq::empty()
        } else {
            seq![spec_event_code(device_id, c.event_type_base)]
        },
        InputClassKind::Button => if raw_motion {
            Seq::empty()
        } else {
            seq![
                spec_event_code(device_id, c.event_type_base),
                spec_event_code(device_id, (c.event_type_base + 1) as u8),
            ]
        },
        InputClassKind::Other => Seq::empty(),
    }
}

/// The event codes a whole device contributes: the classes' contributions
/// in declaration order.
pub open spec fn spec_device_codes(
    raw_motion: bool,
    device_id: u8,
    classes: Seq<ClassInfo>,
) -> Seq<u32>
    decreases classes.len(),
{
    if classes.len() == 0 {
        Seq::empty()
    } else {
        spec_device_codes(raw_motion, device_id, classes.drop_last())
            + spec_class_codes(raw_motion, device_id, classes.last())
    }
}

/// Computes the full event-code list for one device from its reported input
/// classes. The list may come out empty; the caller still issues the
/// subscription request with it, which is a harmless no-op.
pub fn device_event_codes(
    raw_motion: bool,
    device_id: u8,
    classes: &Vec<ClassInfo>,
) -> (r: Vec<u32>)
    requires
        forall|i: int|
            0 <= i < classes@.len() ==> spec_class_base_in_range(#[trigger] classes@[i]),
    ensures
        r@ == spec_device_codes(raw_motion, device_id, classes@),
{
    let mut r: Vec<u32> = Vec::new();
    let mut i: usize = 0;
    while i < classes.len()
        invariant
            i <= classes.len(),
            forall|j: int|
                0 <= j < classes@.len() ==> spec_class_base_in_range(#[trigger] classes@[j]),
            r@ == spec_device_codes(raw_motion, device_id, classes@.take(i as int)),
        decreases classes.len() - i,
    {
        proof {
            assert(classes@.take(i + 1).drop_last() =~= classes@.take(i as int));
            assert(classes@.take(i + 1).last() == classes@[i as int]);
        }
        let c = classes[i];
        match c.kind {
            InputClassKind::Key => {
                r.push(make_event_code(device_id, c.event_type_base + 1));
            },
            InputClassKind::Valuator => {
                if !raw_motion {
                    r.push(make_event_code(device_id, c.event_type_base));
                }
            },
            InputClassKind::Button => {
                if !raw_motion {
                    r.push(make_event_code(device_id, c.event_type_base));
                    r.push(make_event_code(device_id, c.event_type_base + 1));
                }
            },
            InputClassKind::Other => {},
        }
        proof {
            assert(r@ =~= spec_device_codes(raw_motion, device_id, classes@.take(i + 1)));
        }
        i = i + 1;
    }
    proof {
        assert(classes@.take(classes@.len() as int) =~= classes@);
    }
    r
}

/// Law: a device reporting a single class is subscribed exactly as the mode
/// dictates. A lone key class yields exactly one code, the key-release code,
/// in either mode; a lone valuator class yields no code when raw motion is
/// available and exactly its base code in legacy mode; a lone button class
/// yields no code when raw motion is available and exactly its press and
/// release codes in legacy mode.
pub proof fn lemma_single_class_codes(raw_motion: bool, device_id: u8, base: u8)
    requires
        base < 255,
    ensures
        spec_device_codes(raw_motion, device_id,
            seq![ClassInfo { kind: InputClassKind::Key, event_type_base: base }])
            =~= seq![spec_event_code(device_id, (base + 1) as u8)],
        spec_device_codes(true, device_id,
            seq![ClassInfo { kind: InputClassKind::Valuator, event_type_base: base }])
            =~= Seq::<u32>::empty(),
        spec_device_codes(false, device_id,
            seq![ClassInfo { kind: InputClassKind::Valuator, event_type_base: base }])
            =~= seq![spec_event_code(device_id, base)],
        spec_device_codes(true, device_id,
            seq![ClassInfo { kind: InputClassKind::Button, event_type_base: base }])
            =~= Seq::<u32>::empty(),
        spec_device_codes(false, device_id,
            seq![ClassInfo { kind: InputClassKind::Button, event_type_base: base }])
            =~= seq![
                spec_event_code(device_id, base),
                spec_event_code(device_id, (base + 1) as u8),
            ],
{
    let key = ClassInfo { kind: InputClassKind::Key, event_type_base: base };
    let val = ClassInfo { kind: InputClassKind::Valuator, event_type_base: base };
    let but = ClassInfo { kind: InputClassKind::Button, event_type_base: base };
    assert(spec_device_codes(raw_motion, device_id, Seq::<ClassInfo>::empty())
        == Seq::<u32>::empty());
    assert(spec_device_codes(true, device_id, Seq::<ClassInfo>::empty())
        == Seq::<u32>::empty());
    assert(spec_device_codes(false, device_id, Seq::<ClassInfo>::empty())
        == Seq::<u32>::empty());
    assert(seq![key].drop_last() =~= Seq::<ClassInfo>::empty());
    assert(seq![val].drop_last() =~= Seq::<ClassInfo>::empty());
    assert(seq![but].drop_last() =~= Seq::<ClassInfo>::empty());
    assert(seq![key].last() == key);
    assert(seq![val].last() == val);
    assert(seq![but].last() == but);
}

} // verus!
