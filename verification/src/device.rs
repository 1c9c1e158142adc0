//! The device contract: an entity owning an ordered collection of
//! heterogeneous properties plus identity and addressing metadata,
//! exposing an update and synchronization contract that transport
//! layers call into.
//!
//! A device is constructed only on a successful transport handshake —
//! construction is fallible and yields nothing on failure, never a
//! partially-initialized device. Client updates go through the
//! permission-gated property path and are then pushed to the hardware;
//! synchronization absorbs hardware-reported state through the
//! permission-exempt path, re-validating every value so the cache never
//! diverges from the declared domains.

use vstd::prelude::*;

use crate::properties::ChoiceProperty;
use crate::properties::Permission;
use crate::properties::Prop;
use crate::properties::Property;
use crate::properties::PropertyError;
use crate::properties::RangeProperty;
use crate::types::DeviceType;
use crate::LightspeedError;

verus! {

/// A device state value: the closed set of tagged variants stored in a
/// device's heterogeneous property collection.
#[derive(Clone, Debug, Eq, PartialEq)]
pub enum PropValue {
    Int(i64),
    Bool(bool),
    Text(String),
}

impl PropValue {
    /// An owned copy of the value.
    pub fn duplicate(&self) -> (r: PropValue)
        ensures
            r == *self,
    {
        match self {
            PropValue::Int(i) => PropValue::Int(*i),
            PropValue::Bool(b) => PropValue::Bool(*b),
            PropValue::Text(s) => PropValue::Text(s.clone()),
        }
    }
}

/// One property of a device: a uniform handle over the engine's
/// variants, dispatched on the tag internally.
#[derive(Debug)]
pub enum PropEntry {
    /// An unconstrained value of any tag.
    Plain(Property<PropValue>),
    /// An integer kept within inclusive bounds.
    IntRange(RangeProperty<i64>),
    /// An integer kept within a set of allowed values.
    IntChoice(ChoiceProperty<i64>),
}

impl PropEntry {
    /// The current value, wrapped in its tag.
    pub open spec fn spec_value(&self) -> PropValue {
        match self {
            PropEntry::Plain(p) => p.value,
            PropEntry::IntRange(p) => PropValue::Int(p.value),
            PropEntry::IntChoice(p) => PropValue::Int(p.value),
        }
    }

    /// The permission attached at construction.
    pub open spec fn spec_permission(&self) -> Permission {
        match self {
            PropEntry::Plain(p) => p.permission,
            PropEntry::IntRange(p) => p.permission,
            PropEntry::IntChoice(p) => p.permission,
        }
    }

    /// The entry's validity domain: the candidate must carry the tag the
    /// entry was declared with and satisfy the variant's constraint.
    pub open spec fn accepts(&self, v: PropValue) -> bool {
        match self {
            PropEntry::Plain(_) => true,
            PropEntry::IntRange(p) => match v {
                PropValue::Int(i) => p.range.min <= i <= p.range.max,
                _ => false,
            },
            PropEntry::IntChoice(p) => match v {
                PropValue::Int(i) => p.choices@.contains(i),
                _ => false,
            },
        }
    }

    /// The entry after committing `v`; entries of another tag are left
    /// as they are.
    pub open spec fn spec_set(self, v: PropValue) -> Self {
        match self {
            PropEntry::Plain(p) => PropEntry::Plain(p.spec_set(v)),
            PropEntry::IntRange(p) => match v {
                PropValue::Int(i) => PropEntry::IntRange(p.spec_set(i)),
                _ => PropEntry::IntRange(p),
            },
            PropEntry::IntChoice(p) => match v {
                PropValue::Int(i) => PropEntry::IntChoice(p.spec_set(i)),
                _ => PropEntry::IntChoice(p),
            },
        }
    }

    /// Committing an accepted value sets it and keeps the permission and
    /// the domain.
    pub proof fn lemma_entry_set(self, v: PropValue)
        ensures
            self.accepts(v) ==> self.spec_set(v).spec_value() == v,
            self.spec_set(v).spec_permission() == self.spec_permission(),
            forall|w: PropValue| #[trigger] self.spec_set(v).accepts(w) == self.accepts(w),
    {
        match self {
            PropEntry::Plain(p) => p.lemma_set(v),
            PropEntry::IntRange(p) => {
            },
            PropEntry::IntChoice(p) => {
            },
        }
    }

    /// Read the current value.
    pub fn value(&self) -> (r: PropValue)
        ensures
            r == self.spec_value(),
    {
        match self {
            PropEntry::Plain(p) => p.value().duplicate(),
            PropEntry::IntRange(p) => PropValue::Int(*p.value()),
            PropEntry::IntChoice(p) => PropValue::Int(*p.value()),
        }
    }

    /// The permission attached at construction.
    pub fn permission(&self) -> (r: Permission)
        ensures
            r == self.spec_permission(),
    {
        match self {
            PropEntry::Plain(p) => p.permission,
            PropEntry::IntRange(p) => p.permission,
            PropEntry::IntChoice(p) => p.permission,
        }
    }

    /// Client path: permission first, then validity; commits only if
    /// both succeed, otherwise leaves the entry unchanged.
    pub fn update(&mut self, v: PropValue) -> (r: Result<(), PropertyError>)
        ensures
            r is Ok <==> old(self).spec_permission() == Permission::ReadWrite && old(
                self,
            ).accepts(v),
            r is Ok ==> *final(self) == old(self).spec_set(v),
            r is Err ==> *final(self) == *old(self),
            old(self).spec_permission() == Permission::ReadOnly ==> r == Err::<
                (),
                PropertyError,
            >(PropertyError::CannotUpdateReadOnlyProp),
            old(self).spec_permission() == Permission::ReadWrite && !old(self).accepts(v) ==> r
                == Err::<(), PropertyError>(PropertyError::InvalidValue),
    {
        match self {
            PropEntry::Plain(p) => p.update(v),
            PropEntry::IntRange(p) => match p.update_allowed() {
                Err(e) => Err(e),
                Ok(()) => match v {
                    PropValue::Int(i) => p.update(i),
                    _ => Err(PropertyError::InvalidValue),
                },
            },
            PropEntry::IntChoice(p) => match p.update_allowed() {
                Err(e) => Err(e),
                Ok(()) => match v {
                    PropValue::Int(i) => p.update(i),
                    _ => Err(PropertyError::InvalidValue),
                },
            },
        }
    }

    /// Device path: bypasses the permission check but still validates,
    /// so hardware-reported state is absorbed only when it lies within
    /// the declared domain.
    pub fn update_int(&mut self, v: PropValue) -> (r: Result<(), PropertyError>)
        ensures
            r is Ok <==> old(self).accepts(v),
            r is Ok ==> *final(self) == old(self).spec_set(v),
            r is Err ==> *final(self) == *old(self) && r == Err::<(), PropertyError>(
                PropertyError::InvalidValue,
            ),
    {
        match self {
            PropEntry::Plain(p) => p.update_int(v),
            PropEntry::IntRange(p) => match v {
                PropValue::Int(i) => p.update_int(i),
                _ => Err(PropertyError::InvalidValue),
            },
            PropEntry::IntChoice(p) => match v {
                PropValue::Int(i) => p.update_int(i),
                _ => Err(PropertyError::InvalidValue),
            },
        }
    }
}

/// A named property of a device; names are unique within a device.
#[derive(Debug)]
pub struct DeviceProperty {
    pub name: String,
    pub entry: PropEntry,
}

impl DeviceProperty {
    pub fn new(name: String, entry: PropEntry) -> (r: Self)
        ensures
            r.name == name,
            r.entry == entry,
    {
        Self { name, entry }
    }
}

/// Where the cached state stands relative to the physical device.
#[derive(Clone, Copy, Debug, Eq, PartialEq, Structural)]
pub enum SyncState {
    /// The handshake succeeded; no state has been fetched yet.
    Connected,
    /// The cache reflects the last fetched hardware state.
    Synchronized,
    /// A client update was requested, or a push failed: the cache can
    /// no longer be trusted until the caller re-synchronizes.
    Stale,
}

/// The outbound capability the device contract depends on: the
/// transport collaborator that actually talks to the hardware. Nothing
/// is assumed of implementations; the device contract states what holds
/// for every outcome of these calls.
pub trait Transport {
    /// Try to open a connection to the given address.
    fn handshake(&mut self, address: &str) -> bool;

    /// Push one named value to the hardware; false on failure.
    fn push_update(&mut self, name: &str, value: &PropValue) -> bool;

    /// Poll the hardware for its full current property state.
    fn poll_state(&mut self) -> Vec<(String, PropValue)>;
}

/// Property names are unique within the collection.
pub open spec fn unique_names(props: Seq<DeviceProperty>) -> bool {
    forall|i: int, j: int|
        0 <= i < props.len() && 0 <= j < props.len() && i != j ==> props[i].name@ != props[j].name@
}

/// Every cached value lies within its entry's declared domain.
pub open spec fn values_valid(props: Seq<DeviceProperty>) -> bool {
    forall|i: int|
        0 <= i < props.len() ==> #[trigger] props[i].entry.accepts(props[i].entry.spec_value())
}

/// The synchronization state after a client update has been requested:
/// a synchronized device becomes stale.
pub open spec fn spec_after_request(s: SyncState) -> SyncState {
    if s == SyncState::Synchronized {
        SyncState::Stale
    } else {
        s
    }
}

/// One hardware reading applied to a collection: every property of that
/// name absorbs the value if it lies within the domain, everything else
/// is untouched.
pub open spec fn spec_apply_reading(
    props: Seq<DeviceProperty>,
    name: Seq<char>,
    v: PropValue,
) -> Seq<DeviceProperty> {
    Seq::new(
        props.len(),
        |i: int|
            if props[i].name@ == name && props[i].entry.accepts(v) {
                DeviceProperty { name: props[i].name, entry: props[i].entry.spec_set(v) }
            } else {
                props[i]
            },
    )
}

/// Whether a reading names a property whose domain rejects the value: a
/// device/spec mismatch.
pub open spec fn spec_reading_rejected(
    props: Seq<DeviceProperty>,
    name: Seq<char>,
    v: PropValue,
) -> bool {
    exists|i: int| 0 <= i < props.len() && props[i].name@ == name && !props[i].entry.accepts(v)
}

/// A whole poll applied to a collection, reading by reading, in order.
pub open spec fn spec_sync(
    props: Seq<DeviceProperty>,
    readings: Seq<(String, PropValue)>,
) -> Seq<DeviceProperty>
    decreases readings.len(),
{
    if readings.len() == 0 {
        props
    } else {
        spec_apply_reading(
            spec_sync(props, readings.drop_last()),
            readings.last().0@,
            readings.last().1,
        )
    }
}

/// Whether any reading of a poll was rejected by the property it named.
pub open spec fn spec_sync_rejects(
    props: Seq<DeviceProperty>,
    readings: Seq<(String, PropValue)>,
) -> bool
    decreases readings.len(),
{
    if readings.len() == 0 {
        false
    } else {
        spec_sync_rejects(props, readings.drop_last()) || spec_reading_rejected(
            spec_sync(props, readings.drop_last()),
            readings.last().0@,
            readings.last().1,
        )
    }
}

/// A device: identity and addressing metadata, a device-type tag, an
/// ordered collection of named properties, and its synchronization
/// state.
#[derive(Debug)]
pub struct Device {
    pub id: u64,
    pub name: String,
    pub address: String,
    pub device_type: DeviceType,
    pub props: Vec<DeviceProperty>,
    pub state: SyncState,
}

impl Device {
    /// Well-formedness: property names are unique within the device.
    pub open spec fn wf(&self) -> bool {
        unique_names(self.props@)
    }

    /// Fallible construction: the device exists only if the transport
    /// handshake on its address succeeds; on failure no device is
    /// produced, never a connected-but-broken one.
    pub fn try_connect<T: Transport>(
        transport: &mut T,
        id: u64,
        name: String,
        address: String,
        device_type: DeviceType,
        props: Vec<DeviceProperty>,
    ) -> (r: Option<Device>)
        requires
            unique_names(props@),
        ensures
            r matches Some(d) ==> {
                &&& d.wf()
                &&& d.id == id
                &&& d.name == name
                &&& d.address == address
                &&& d.device_type == device_type
                &&& d.props == props
                &&& d.state == SyncState::Connected
            },
    {
        let ok = transport.handshake(address.as_str());
        if ok {
            Some(Device { id, name, address, device_type, props, state: SyncState::Connected })
        } else {
            None
        }
    }

    /// Read-only snapshot of the property collection.
    pub fn get_properties(&self) -> (r: &Vec<DeviceProperty>)
        ensures
            r@ == self.props@,
    {
        &self.props
    }

    /// Look a property up by its unique name; absence is not fatal.
    pub fn find_property_index(&self, name: &str) -> (r: Option<usize>)
        ensures
            r matches Some(i) ==> i < self.props@.len() && self.props@[i as int].name@ == name@,
            r is None ==> forall|i: int|
                0 <= i < self.props@.len() ==> self.props@[i].name@ != name@,
    {
        let key: String = name.to_owned();
        let n: usize = self.props.len();
        let mut k: usize = 0;
        while k < n
            invariant
                n == self.props@.len(),
                k <= n,
                key@ == name@,
                forall|i: int| 0 <= i < k ==> self.props@[i].name@ != name@,
            decreases n - k,
        {
            if self.props[k].name == key {
                return Some(k);
            }
            k += 1;
        }
        None
    }

    /// The half of a client update that issues the transport command: on
    /// failure the cached state is marked stale — it must not be trusted
    /// again before an explicit re-synchronization.
    pub fn update_property_remote<T: Transport>(
        &mut self,
        transport: &mut T,
        name: &str,
        value: &PropValue,
    ) -> (r: Result<(), LightspeedError>)
        ensures
            final(self).id == old(self).id,
            final(self).name == old(self).name,
            final(self).address == old(self).address,
            final(self).device_type == old(self).device_type,
            final(self).props == old(self).props,
            r is Ok ==> final(self).state == old(self).state,
            r is Err ==> r == Err::<(), LightspeedError>(LightspeedError::DeviceConnectionError)
                && final(self).state == SyncState::Stale,
    {
        let ok = transport.push_update(name, value);
        if ok {
            Ok(())
        } else {
            self.state = SyncState::Stale;
            Err(LightspeedError::DeviceConnectionError)
        }
    }

    /// Client entrypoint: resolve the name, delegate to the property's
    /// permission-gated update, and — only if that succeeds — push the
    /// change to the hardware. Requesting any update takes a
    /// synchronized device to stale; a failed push also marks the device
    /// stale so the cache is never silently trusted while diverged.
    pub fn update_property<T: Transport>(
        &mut self,
        transport: &mut T,
        name: &str,
        value: PropValue,
    ) -> (r: Result<(), LightspeedError>)
        requires
            old(self).wf(),
        ensures
            final(self).wf(),
            final(self).id == old(self).id,
            final(self).name == old(self).name,
            final(self).address == old(self).address,
            final(self).device_type == old(self).device_type,
            values_valid(old(self).props@) ==> values_valid(final(self).props@),
            r == Err::<(), LightspeedError>(LightspeedError::UnknownProperty) <==> (forall|i: int|
                0 <= i < old(self).props@.len() ==> old(self).props@[i].name@ != name@),
            r == Err::<(), LightspeedError>(LightspeedError::UnknownProperty) ==> final(self).props@
                == old(self).props@ && final(self).state == spec_after_request(old(self).state),
            forall|i: int|
                #![trigger old(self).props@[i]]
                0 <= i < old(self).props@.len() && old(self).props@[i].name@ == name@ ==> {
                    let e = old(self).props@[i].entry;
                    &&& (e.spec_permission() == Permission::ReadOnly ==> r == Err::<
                        (),
                        LightspeedError,
                    >(LightspeedError::PropertyError(PropertyError::CannotUpdateReadOnlyProp))
                        && final(self).props@ == old(self).props@ && final(self).state
                        == spec_after_request(old(self).state))
                    &&& (e.spec_permission() == Permission::ReadWrite && !e.accepts(value) ==> r
                        == Err::<(), LightspeedError>(
                        LightspeedError::PropertyError(PropertyError::InvalidValue),
                    ) && final(self).props@ == old(self).props@ && final(self).state
                        == spec_after_request(old(self).state))
                    &&& (e.spec_permission() == Permission::ReadWrite && e.accepts(value) ==> {
                        &&& final(self).props@ == old(self).props@.update(
                            i,
                            (DeviceProperty {
                                name: old(self).props@[i].name,
                                entry: e.spec_set(value),
                            }),
                        )
                        &&& (r is Ok ==> final(self).state == spec_after_request(old(self).state))
                        &&& (r is Err ==> r == Err::<(), LightspeedError>(
                            LightspeedError::DeviceConnectionError,
                        ) && final(self).state == SyncState::Stale)
                    })
                },
    {
        if self.state == SyncState::Synchronized {
            self.state = SyncState::Stale;
        }
        let found = self.find_property_index(name);
        match found {
            None => Err(LightspeedError::UnknownProperty),
            Some(k) => {
                proof {
                    assert forall|i: int|
                        0 <= i < old(self).props@.len() && old(self).props@[i].name@
                            == name@ implies i == k as int by {
                        if i != k as int {
                            assert(self.props@[i].name@ != self.props@[k as int].name@);
                        }
                    }
                }
                let ghost e = self.props@[k as int].entry;
                let pushed = value.duplicate();
                let dp = &mut self.props[k];
                let res = dp.entry.update(value);
                proof {
                    e.lemma_entry_set(value);
                    if res is Ok {
                        assert(self.props@ =~= old(self).props@.update(
                            k as int,
                            (DeviceProperty {
                                name: old(self).props@[k as int].name,
                                entry: e.spec_set(value),
                            }),
                        ));
                    } else {
                        assert(self.props@ =~= old(self).props@);
                    }
                    assert(self.wf());
                    if values_valid(old(self).props@) {
                        assert forall|i: int|
                            0 <= i < self.props@.len() implies #[trigger] self.props@[i].entry.accepts(
                            self.props@[i].entry.spec_value(),
                        ) by {
                            assert(old(self).props@[i].entry.accepts(
                                old(self).props@[i].entry.spec_value(),
                            ));
                            if i == k as int && res is Ok {
                                assert(e.accepts(value));
                                assert(self.props@[i].entry == e.spec_set(value));
                                assert(e.spec_set(value).spec_value() == value);
                                assert(e.spec_set(value).accepts(value) == e.accepts(value));
                            } else {
                                assert(self.props@[i] == old(self).props@[i]);
                            }
                        }
                    }
                }
                match res {
                    Err(e) => Err(LightspeedError::PropertyError(e)),
                    Ok(()) => self.update_property_remote(transport, name, &pushed),
                }
            },
        }
    }

    /// Absorb one poll's readings into the cached state, in order, each
    /// through the permission-exempt, validity-checked device path.
    /// Readings that name no property are ignored; a reading whose value
    /// lies outside the named property's domain leaves that property
    /// unchanged and is reported as a device/spec mismatch.
    pub fn sync_values(&mut self, readings: &Vec<(String, PropValue)>) -> (r: Result<
        (),
        PropertyError,
    >)
        requires
            old(self).wf(),
        ensures
            final(self).wf(),
            final(self).id == old(self).id,
            final(self).name == old(self).name,
            final(self).address == old(self).address,
            final(self).device_type == old(self).device_type,
            final(self).state == old(self).state,
            final(self).props@ == spec_sync(old(self).props@, readings@),
            r is Err <==> spec_sync_rejects(old(self).props@, readings@),
            r is Err ==> r == Err::<(), PropertyError>(PropertyError::InvalidValue),
            values_valid(old(self).props@) ==> values_valid(final(self).props@),
    {
        let n: usize = readings.len();
        let mut k: usize = 0;
        let mut bad = false;
        while k < n
            invariant
                old(self).wf(),
                n == readings@.len(),
                k <= n,
                self.id == old(self).id,
                self.name == old(self).name,
                self.address == old(self).address,
                self.device_type == old(self).device_type,
                self.state == old(self).state,
                self.props@.len() == old(self).props@.len(),
                forall|i: int|
                    0 <= i < self.props@.len() ==> #[trigger] self.props@[i].name == old(
                        self,
                    ).props@[i].name,
                self.props@ == spec_sync(old(self).props@, readings@.take(k as int)),
                bad == spec_sync_rejects(old(self).props@, readings@.take(k as int)),
                values_valid(old(self).props@) ==> values_valid(self.props@),
            decreases n - k,
        {
            let ghost props_before = self.props@;
            let pair: &(String, PropValue) = &readings[k];
            let found = self.find_property_index(pair.0.as_str());
            match found {
                None => {
                    proof {
                        assert(spec_apply_reading(props_before, pair.0@, pair.1) =~= props_before);
                        assert(!spec_reading_rejected(props_before, pair.0@, pair.1));
                    }
                },
                Some(j) => {
                    proof {
                        assert forall|i: int|
                            0 <= i < props_before.len() && props_before[i].name@ == pair.0@ implies
                            i == j as int by {
                            if i != j as int {
                                assert(self.props@[i].name@ != self.props@[j as int].name@);
                            }
                        }
                    }
                    let dp = &mut self.props[j];
                    let res = dp.entry.update_int(pair.1.duplicate());
                    proof {
                        props_before[j as int].entry.lemma_entry_set(pair.1);
                        assert(spec_apply_reading(props_before, pair.0@, pair.1) =~= self.props@);
                    }
                    if res.is_err() {
                        bad = true;
                    }
                },
            }
            proof {
                assert(readings@.take((k + 1) as int).drop_last() =~= readings@.take(k as int));
                assert(readings@.take((k + 1) as int).last() == readings@[k as int]);
            }
            k += 1;
        }
        proof {
            assert(readings@.take(n as int) =~= readings@);
        }
        if bad {
            Err(PropertyError::InvalidValue)
        } else {
            Ok(())
        }
    }

    /// Synchronize: ask the transport collaborator for the authoritative
    /// hardware state and reconcile it into the property collection. The
    /// device is synchronized afterwards; a rejected reading is surfaced
    /// as a device/spec mismatch.
    pub fn fetch_props<T: Transport>(&mut self, transport: &mut T) -> (r: Result<
        (),
        LightspeedError,
    >)
        requires
            old(self).wf(),
        ensures
            final(self).wf(),
            final(self).id == old(self).id,
            final(self).name == old(self).name,
            final(self).address == old(self).address,
            final(self).device_type == old(self).device_type,
            final(self).state == SyncState::Synchronized,
            exists|rd: Seq<(String, PropValue)>|
                final(self).props@ == #[trigger] spec_sync(old(self).props@, rd),
            values_valid(old(self).props@) ==> values_valid(final(self).props@),
            r is Err ==> r == Err::<(), LightspeedError>(
                LightspeedError::PropertyError(PropertyError::InvalidValue),
            ),
    {
        let readings = transport.poll_state();
        let res = self.sync_values(&readings);
        self.state = SyncState::Synchronized;
        match res {
            Ok(()) => Ok(()),
            Err(e) => Err(LightspeedError::PropertyError(e)),
        }
    }
}

impl crate::types::DevType for Device {
    fn dev_type(&self) -> DeviceType {
        self.device_type
    }
}

} // verus!

