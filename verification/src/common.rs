//! What every device kind shares: the definition of a device, the bridge a
//! creation failure is reported through, the device factory and the node
//! lister.

use vstd::prelude::*;
use vstd::string::StringSliceAdditionalSpecFns;
use crate::error::{ErrorView, InputtinoError};
use crate::native::DeviceKind;

verus! {

/// Whether `bytes` is a null-terminated string: it ends in a null byte and
/// holds no other.
pub open spec fn is_c_string(bytes: Seq<u8>) -> bool {
    &&& bytes.len() > 0
    &&& bytes.last() == 0u8
    &&& !bytes.drop_last().contains(0u8)
}

/// The null-terminated copy of `text`, or `None` where `text` holds a null
/// byte and so has none.
fn to_c_string(text: &str) -> (terminated: Option<Vec<u8>>)
    ensures
        text.spec_bytes().contains(0u8) <==> terminated is None,
        terminated matches Some(bytes) ==> bytes@ == text.spec_bytes().push(0u8),
{
    let bytes = text.as_bytes();
    let mut terminated: Vec<u8> = Vec::new();
    let mut i: usize = 0;
    while i < bytes.len()
        invariant
            i <= bytes@.len(),
            bytes@ == text.spec_bytes(),
            terminated@ == bytes@.subrange(0, i as int),
            !bytes@.subrange(0, i as int).contains(0u8),
        decreases bytes@.len() - i,
    {
        if bytes[i] == 0 {
            return None;
        }
        terminated.push(bytes[i]);
        assert(bytes@.subrange(0, i + 1) == bytes@.subrange(0, i as int).push(bytes@[i as int]));
        i += 1;
    }
    assert(bytes@.subrange(0, i as int) == bytes@);
    terminated.push(0);
    Some(terminated)
}

/// A [`DeviceDefinition`] as plain values: each text as its bytes, without
/// the terminating null byte.
pub struct DefinitionView {
    pub name: Seq<u8>,
    pub vendor_id: u16,
    pub product_id: u16,
    pub version: u16,
    pub phys: Seq<u8>,
    pub uniq: Seq<u8>,
}

/// Definition of the type of device to emulate.
///
/// The three texts are kept as null-terminated byte strings, ready to be
/// pointed at for as long as the definition lives.
pub struct DeviceDefinition {
    name: Vec<u8>,
    vendor_id: u16,
    product_id: u16,
    version: u16,
    phys: Vec<u8>,
    uniq: Vec<u8>,
}

impl View for DeviceDefinition {
    type V = DefinitionView;

    closed spec fn view(&self) -> DefinitionView {
        DefinitionView {
            name: self.name@.drop_last(),
            vendor_id: self.vendor_id,
            product_id: self.product_id,
            version: self.version,
            phys: self.phys@.drop_last(),
            uniq: self.uniq@.drop_last(),
        }
    }
}

impl DeviceDefinition {
    #[verifier::type_invariant]
    spec fn well_formed(&self) -> bool {
        &&& is_c_string(self.name@)
        &&& is_c_string(self.phys@)
        &&& is_c_string(self.uniq@)
    }

    /// Create a new device definition for creating emulated devices.
    ///
    /// # Arguments
    ///
    /// * `name` - The name of the emulated device.
    /// * `vendor_id` - ID of the vendor that created the emulated device.
    /// * `product_id` - ID of the product.
    /// * `version` - Version of the product.
    /// * `phys` - Physical path of the device.
    /// * `uniq` - Unique identifier of the device.
    ///
    /// Fails with [`InputtinoError::InvalidArgument`] exactly when one of the
    /// three texts holds a null byte. Numbers and empty texts are taken as
    /// they are.
    pub fn new(
        name: &str,
        vendor_id: u16,
        product_id: u16,
        version: u16,
        phys: &str,
        uniq: &str,
    ) -> (definition: Result<DeviceDefinition, InputtinoError>)
        ensures
            definition is Err <==> name.spec_bytes().contains(0u8) || phys.spec_bytes().contains(0u8)
                || uniq.spec_bytes().contains(0u8),
            definition matches Err(error) ==> error@ == ErrorView::InvalidArgument,
            definition matches Ok(built) ==> built@ == (DefinitionView {
                name: name.spec_bytes(),
                vendor_id,
                product_id,
                version,
                phys: phys.spec_bytes(),
                uniq: uniq.spec_bytes(),
            }),
    {
        let name_c = match to_c_string(name) {
            Some(bytes) => bytes,
            None => { return Err(InputtinoError::InvalidArgument); },
        };
        let phys_c = match to_c_string(phys) {
            Some(bytes) => bytes,
            None => { return Err(InputtinoError::InvalidArgument); },
        };
        let uniq_c = match to_c_string(uniq) {
            Some(bytes) => bytes,
            None => { return Err(InputtinoError::InvalidArgument); },
        };
        assert(name_c@.drop_last() == name.spec_bytes());
        assert(phys_c@.drop_last() == phys.spec_bytes());
        assert(uniq_c@.drop_last() == uniq.spec_bytes());
        Ok(DeviceDefinition { name: name_c, vendor_id, product_id, version, phys: phys_c, uniq: uniq_c })
    }

    /// The name of the device, as a null-terminated string.
    pub fn name(&self) -> (bytes: &[u8])
        ensures
            bytes@ == self@.name.push(0u8),
            is_c_string(bytes@),
    {
        proof {
            use_type_invariant(self);
            assert(self.name@ == self.name@.drop_last().push(0u8));
        }
        self.name.as_slice()
    }

    /// ID of the vendor of the device.
    pub fn vendor_id(&self) -> (id: u16)
        ensures
            id == self@.vendor_id,
    {
        self.vendor_id
    }

    /// ID of the product.
    pub fn product_id(&self) -> (id: u16)
        ensures
            id == self@.product_id,
    {
        self.product_id
    }

    /// Version of the product.
    pub fn version(&self) -> (version: u16)
        ensures
            version == self@.version,
    {
        self.version
    }

    /// The physical path of the device, as a null-terminated string.
    pub fn phys(&self) -> (bytes: &[u8])
        ensures
            bytes@ == self@.phys.push(0u8),
            is_c_string(bytes@),
    {
        proof {
            use_type_invariant(self);
            assert(self.phys@ == self.phys@.drop_last().push(0u8));
        }
        self.phys.as_slice()
    }

    /// The unique identifier of the device, as a null-terminated string.
    pub fn uniq(&self) -> (bytes: &[u8])
        ensures
            bytes@ == self@.uniq.push(0u8),
            is_c_string(bytes@),
    {
        proof {
            use_type_invariant(self);
            assert(self.uniq@ == self.uniq@.drop_last().push(0u8));
        }
        self.uniq.as_slice()
    }
}

/// The slot a failing creation leaves its message in.
///
/// A bridge lives for one creation call. It starts out empty, the native
/// library reports into it at most once, and only when it fails, and the slot
/// is read as soon as the call has returned.
pub struct ErrorBridge {
    slot: String,
}

impl View for ErrorBridge {
    type V = Seq<char>;

    closed spec fn view(&self) -> Seq<char> {
        self.slot@
    }
}

impl ErrorBridge {
    /// A bridge with an empty slot.
    pub fn new() -> (bridge: ErrorBridge)
        ensures
            bridge@ == Seq::<char>::empty(),
    {
        ErrorBridge { slot: String::new() }
    }

    /// The message in the slot, empty where nothing was reported.
    pub fn message(&self) -> (text: &str)
        ensures
            text@ == self@,
    {
        self.slot.as_str()
    }
}

/// What the native library calls to report why a creation failed: the slot of
/// `user_data` is overwritten with `error_message`.
pub fn error_handler_fn(error_message: &str, user_data: &mut ErrorBridge)
    ensures
        final(user_data)@ == error_message@,
{
    user_data.slot = error_message.to_owned();
}

/// An opaque token for one device of the native library.
///
/// A handle is never null, cannot be copied, and belongs to exactly one
/// device wrapper.
pub struct DeviceHandle {
    addr: usize,
}

impl View for DeviceHandle {
    type V = usize;

    closed spec fn view(&self) -> usize {
        self.addr
    }
}

impl DeviceHandle {
    #[verifier::type_invariant]
    spec fn is_live(&self) -> bool {
        self.addr != 0
    }

    /// The address of the native device.
    pub fn addr(&self) -> (addr: usize)
        ensures
            addr == self@,
            addr != 0,
    {
        proof {
            use_type_invariant(self);
        }
        self.addr
    }
}

/// What a creation ends in, given the address the native library returned and
/// the message it left in the bridge: a device at a non-null address, and at
/// the null address a failure with the message, or with a fixed one where the
/// slot is empty.
pub open spec fn creation_outcome(raw: usize, message: Seq<char>) -> Result<usize, ErrorView> {
    if raw != 0 {
        Ok(raw)
    } else if message.len() > 0 {
        Err(ErrorView::Generic(message))
    } else {
        Err(ErrorView::Generic("unknown failure"@))
    }
}

/// A creation result as plain values.
pub open spec fn handle_outcome(created: Result<DeviceHandle, InputtinoError>) -> Result<
    usize,
    ErrorView,
> {
    match created {
        Ok(handle) => Ok(handle@),
        Err(error) => Err(error@),
    }
}

/// Reads off what a creation call ended in, once it has returned `raw` and
/// left `bridge` behind. The bridge ends here.
pub fn creation_result(raw: usize, bridge: ErrorBridge) -> (created: Result<
    DeviceHandle,
    InputtinoError,
>)
    ensures
        handle_outcome(created) == creation_outcome(raw, bridge@),
{
    if raw != 0 {
        Ok(DeviceHandle { addr: raw })
    } else if bridge.slot.as_str().is_empty() {
        Err(InputtinoError::Generic("unknown failure".to_owned()))
    } else {
        Err(InputtinoError::Generic(bridge.slot))
    }
}

/// Whether `create_fn` can be called to create a device of `kind` from
/// `definition`: it accepts them together with any empty bridge.
pub open spec fn can_create<F: FnOnce(DeviceKind, &DeviceDefinition, &mut ErrorBridge) -> usize>(
    create_fn: F,
    kind: DeviceKind,
    definition: &DeviceDefinition,
) -> bool {
    forall|bridge: &mut ErrorBridge|
        (*bridge)@ == Seq::<char>::empty() ==> create_fn.requires((kind, definition, bridge))
}

/// Whether a creation through `create_fn` can go this way: `bridge` is empty
/// when `create_fn` is called with it, `kind` and `definition`, and `raw` is an
/// address that the call may then return. What the call has left in the
/// bridge is the final value of `bridge`.
#[verifier::inline]
pub open spec fn creates<F: FnOnce(DeviceKind, &DeviceDefinition, &mut ErrorBridge) -> usize>(
    create_fn: F,
    kind: DeviceKind,
    definition: &DeviceDefinition,
    bridge: &mut ErrorBridge,
    raw: usize,
) -> bool {
    &&& (*bridge)@ == Seq::<char>::empty()
    &&& create_fn.ensures((kind, definition, bridge), raw)
}

/// Creates a device of the given kind.
///
/// `create_fn` stands for the native creation function. It is called once,
/// with `kind`, `definition` and a fresh, empty bridge, and returns the
/// address of the new device, or null after reporting into the bridge.
/// Whatever it returns and reports, the result is the
/// [`creation_outcome`] of that.
pub fn make_device<F>(kind: DeviceKind, create_fn: F, definition: &DeviceDefinition) -> (created:
    Result<DeviceHandle, InputtinoError>) where
    F: FnOnce(DeviceKind, &DeviceDefinition, &mut ErrorBridge) -> usize,

    requires
        can_create(create_fn, kind, definition),
    ensures
        exists|bridge: &mut ErrorBridge, raw: usize|
            creates(create_fn, kind, definition, bridge, raw) && handle_outcome(created)
                == creation_outcome(raw, (*final(bridge))@),
{
    let mut bridge = ErrorBridge::new();
    let raw = create_fn(kind, definition, &mut bridge);
    creation_result(raw, bridge)
}

/// What the native library hands back when asked for the nodes of a device:
/// the address of an array of strings, null where it failed, and the number
/// of strings in it.
#[derive(Clone, Copy, Debug, PartialEq, Eq)]
pub struct NodeArray {
    pub array: usize,
    pub count: i32,
}

/// Whether `nodes` is what listing ends in once the native library has handed
/// back `listed`, with `take_fn` giving each element: a failure for a null
/// array, and else one path for each index below the count, in the order of
/// the indices, each being what `take_fn` gave for its index.
pub open spec fn nodes_listed<T: Fn(NodeArray, i32) -> String>(
    take_fn: T,
    listed: NodeArray,
    nodes: Result<Vec<String>, InputtinoError>,
) -> bool {
    if listed.array == 0 {
        nodes matches Err(error) && error@ == ErrorView::Generic("Failed to get nodes"@)
    } else {
        &&& nodes matches Ok(paths)
        &&& paths@.len() == if listed.count > 0 { listed.count as int } else { 0 }
        &&& forall|i: i32|
            0 <= i < listed.count ==> take_fn.ensures((listed, i), #[trigger] paths@[i as int])
    }
}

/// Whether the two functions can be called to list the nodes of the device of
/// `kind` at `device`: `list_fn` accepts the device, and `take_fn` accepts
/// each index below the count of any array that `list_fn` may hand back.
pub open spec fn can_list<L: FnOnce(DeviceKind, usize) -> NodeArray, T: Fn(NodeArray, i32) -> String>(
    list_fn: L,
    take_fn: T,
    kind: DeviceKind,
    device: usize,
) -> bool {
    &&& list_fn.requires((kind, device))
    &&& forall|listed: NodeArray, i: i32|
        list_fn.ensures((kind, device), listed) && listed.array != 0 && 0 <= i < listed.count
            ==> take_fn.requires((listed, i))
}

/// Whether `nodes` is what listing the nodes of the device of `kind` at
/// `device` can end in: it is [`nodes_listed`] for some array that `list_fn`
/// may hand back when called with the device.
pub open spec fn listed_by<L: FnOnce(DeviceKind, usize) -> NodeArray, T: Fn(NodeArray, i32) -> String>(
    list_fn: L,
    take_fn: T,
    kind: DeviceKind,
    device: usize,
    nodes: Result<Vec<String>, InputtinoError>,
) -> bool {
    exists|listed: NodeArray|
        list_fn.ensures((kind, device), listed) && nodes_listed(take_fn, listed, nodes)
}

/// Lists the paths of the nodes of a device, in the order in which the native
/// library gives them.
///
/// `list_fn` stands for the native enumeration function; it is called once,
/// with `kind` and the address of the device. `take_fn` copies the string at
/// one index of the array into an owned one and releases the native one; it is
/// called once for each index below the count, in ascending order, and not at
/// all where the array is null. A count of zero or less gives an empty list.
pub fn get_nodes<L, T>(kind: DeviceKind, list_fn: L, take_fn: T, device: &DeviceHandle) -> (nodes:
    Result<Vec<String>, InputtinoError>) where
    L: FnOnce(DeviceKind, usize) -> NodeArray,
    T: Fn(NodeArray, i32) -> String,

    requires
        can_list(list_fn, take_fn, kind, device@),
    ensures
        listed_by(list_fn, take_fn, kind, device@, nodes),
{
    let listed = list_fn(kind, device.addr());
    if listed.array == 0 {
        let failed = Err(InputtinoError::Generic("Failed to get nodes".to_owned()));
        assert(nodes_listed(take_fn, listed, failed));
        return failed;
    }
    let mut result: Vec<String> = Vec::new();
    let mut i: i32 = 0;
    while i < listed.count
        invariant
            0 <= i,
            i <= listed.count || i == 0,
            listed.array != 0,
            result@.len() == i,
            forall|j: i32| 0 <= j < listed.count ==> take_fn.requires((listed, j)),
            forall|j: i32| 0 <= j < i ==> take_fn.ensures((listed, j), #[trigger] result@[j as int]),
        decreases listed.count - i,
    {
        let node = take_fn(listed, i);
        result.push(node);
        i += 1;
    }
    let nodes = Ok(result);
    assert(nodes_listed(take_fn, listed, nodes));
    nodes
}

} // verus!
