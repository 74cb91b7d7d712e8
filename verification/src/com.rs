//! The runtime classes this runtime serves, how `QueryApiImpl` picks one,
//! and the answers of the feature, persistent local storage, store and
//! networking objects.
use vstd::prelude::*;
use crate::results::{S_OK, E_FAIL, E_POINTER, E_NOINTERFACE};
use crate::xnetworking::{
    XNetworkingConnectivityCostHint, XNetworkingConnectivityHint, XNetworkingConnectivityLevelHint,
    XNetworkingSecurityInformation, SECURITY_PROTOCOL_FLAGS, spec_connectivity_hint,
};
use crate::xasync::{
    XAsyncBlock, spec_result_size, XAsyncProviderContext, XAsyncResultStep, XASYNC_INITIALIZE_MAGIC, XASYNC_INT_MAGIC, spec_begin,
    spec_complete, spec_word_magic, spec_result_step, spec_get_result, run_begin, get_result, spec_result_payload, spec_read_result,
    spec_in_use, lemma_word_roundtrip,
};
use crate::results::E_PENDING;

verus! {

/// The feature class, which is also its interface.
pub const CLSID_XFEATURE: u128 = 0x8836fe87_edb9_4fe3_8dad_05f0d2cd5b40;

/// The store class.
pub const CLSID_XSTORE: u128 = 0x0dd112ac_7c24_448c_b92b_3960fb5bd30c;

/// The networking class.
pub const CLSID_XNETWORKING: u128 = 0x37e56907_2f10_41e8_b72f_36edb185331a;

/// The persistent local storage class.
pub const CLSID_XPERSISTENT_LOCAL_STORAGE: u128 = 0xf4faf4d4_2d04_4fce_b3e0_474a713a3e84;

/// The user class.
pub const CLSID_XUSER: u128 = 0x01acd177_91f9_4763_a38e_ccbb55ce32e0;

/// The async block and task queue class.
pub const CLSID_XASYNC: u128 = 0x073b7dcb_1fcf_4030_94be_e3c9eb623428;

/// The object that answers a runtime class.
#[derive(Clone, Copy, Debug, PartialEq, Eq, Structural)]
pub enum RuntimeObject {
    Feature,
    Store,
    Networking,
    PersistentLocalStorage,
    User,
    XAsync,
    /// Forwarded to the delegated runtime library.
    Delegated,
}

/// The object that answers a class id.
pub open spec fn spec_runtime_object(class_id: u128) -> RuntimeObject {
    if class_id == CLSID_XFEATURE {
        RuntimeObject::Feature
    } else if class_id == CLSID_XSTORE {
        RuntimeObject::Store
    } else if class_id == CLSID_XNETWORKING {
        RuntimeObject::Networking
    } else if class_id == CLSID_XPERSISTENT_LOCAL_STORAGE {
        RuntimeObject::PersistentLocalStorage
    } else if class_id == CLSID_XUSER {
        RuntimeObject::User
    } else if class_id == CLSID_XASYNC {
        RuntimeObject::XAsync
    } else {
        RuntimeObject::Delegated
    }
}

/// Which object serves each class id: the feature, store, networking,
/// persistent local storage, user and async classes are served here, each by
/// its own object; every other class is forwarded to the delegated library.
pub proof fn law_class_routing(class_id: u128)
    ensures
        (spec_runtime_object(class_id) == RuntimeObject::Feature) <==> class_id == 0x8836fe87_edb9_4fe3_8dad_05f0d2cd5b40u128,
        (spec_runtime_object(class_id) == RuntimeObject::Store) <==> class_id == 0x0dd112ac_7c24_448c_b92b_3960fb5bd30cu128,
        (spec_runtime_object(class_id) == RuntimeObject::Networking) <==> class_id == 0x37e56907_2f10_41e8_b72f_36edb185331au128,
        (spec_runtime_object(class_id) == RuntimeObject::PersistentLocalStorage) <==> class_id
            == 0xf4faf4d4_2d04_4fce_b3e0_474a713a3e84u128,
        (spec_runtime_object(class_id) == RuntimeObject::User) <==> class_id == 0x01acd177_91f9_4763_a38e_ccbb55ce32e0u128,
        (spec_runtime_object(class_id) == RuntimeObject::XAsync) <==> class_id == 0x073b7dcb_1fcf_4030_94be_e3c9eb623428u128,
{
}

/// `QueryApiImpl`: a missing class id (`None`), interface id or out pointer
/// fails with `E_POINTER`; otherwise the object that serves the class is
/// asked for the interface.
pub fn query_api_impl(runtime_class_id: Option<u128>, interface_present: bool, out_present: bool) -> (r: Result<RuntimeObject, i32>)
    ensures
        (runtime_class_id is None || !interface_present || !out_present) ==> r == Err::<RuntimeObject, i32>(E_POINTER),
        runtime_class_id matches Some(c) ==> (interface_present && out_present)
            ==> r == Ok::<RuntimeObject, i32>(spec_runtime_object(c)),
{
    match runtime_class_id {
        None => Err(E_POINTER),
        Some(class_id) => {
            if !interface_present || !out_present {
                return Err(E_POINTER);
            }
            if class_id == CLSID_XFEATURE {
                Ok(RuntimeObject::Feature)
            } else if class_id == CLSID_XSTORE {
                Ok(RuntimeObject::Store)
            } else if class_id == CLSID_XNETWORKING {
                Ok(RuntimeObject::Networking)
            } else if class_id == CLSID_XPERSISTENT_LOCAL_STORAGE {
                Ok(RuntimeObject::PersistentLocalStorage)
            } else if class_id == CLSID_XUSER {
                Ok(RuntimeObject::User)
            } else if class_id == CLSID_XASYNC {
                Ok(RuntimeObject::XAsync)
            } else {
                Ok(RuntimeObject::Delegated)
            }
        },
    }
}

/// The answer of an object asked for an interface: `S_OK` when it
/// implements it, otherwise `E_NOINTERFACE` with a null out pointer. A
/// missing interface id or out pointer fails with `E_POINTER` first.
pub fn query_answer(interface_present: bool, out_present: bool, implemented: bool) -> (hr: i32)
    ensures
        hr == (if !interface_present || !out_present {
            E_POINTER
        } else if implemented {
            S_OK
        } else {
            E_NOINTERFACE
        }),
{
    if !interface_present || !out_present {
        E_POINTER
    } else if implemented {
        S_OK
    } else {
        E_NOINTERFACE
    }
}

/// The id of `IUnknown`, which every object answers.
pub const IID_IUNKNOWN: u128 = 0x00000000_0000_0000_c000_000000000046;

/// The feature interface.
pub const IID_IXFEATURE: u128 = 0x8836fe87_edb9_4fe3_8dad_05f0d2cd5b40;

/// The persistent local storage interface.
pub const IID_IXPERSISTENT_LOCAL_STORAGE: u128 = 0x41a4e10c_5a7e_41d9_8c37_37bde62a07d6;

/// The store interface.
pub const IID_IXSTORE: u128 = 0x0dd112ac_7c24_448c_b92b_3960fb5bd30c;

/// The store interface under its first other id.
pub const IID_IXSTORE_ALIAS1: u128 = 0x5c48dedf_0b67_4492_a4b5_6829b8e796e1;

/// The store interface under its second other id.
pub const IID_IXSTORE_ALIAS2: u128 = 0xb09d803c_2414_4a05_82c6_66dfdc9e9a44;

/// The store interface under its third other id.
pub const IID_IXSTORE_ALIAS3: u128 = 0x2d42fea5_e71d_4b76_97cd_c50afbb3ae5d;

/// The networking interface.
pub const IID_IXNETWORKING: u128 = 0x37e56907_2f10_41e8_b72f_36edb185331a;

/// The networking interface under its second id.
pub const IID_IXNETWORKING2: u128 = 0xbf2346b2_39af_4658_b5ea_44713c7e83b3;

/// The user interface.
pub const IID_IXUSER: u128 = 0x01acd177_91f9_4763_a38e_ccbb55ce32e0;

/// The gamertag interface of the user object.
pub const IID_IXUSER2: u128 = 0xcef4fac0_7676_4a94_a119_4c43f9eb5b74;

/// The user interface under its third id.
pub const IID_IXUSER3: u128 = 0x26f3c674_a2fe_44fa_b6c4_a323bc94ff53;

/// The user interface under its fourth id.
pub const IID_IXUSER4: u128 = 0x079415e3_6727_437f_8e9d_8f8f9b2439f7;

/// The user interface under its fifth id.
pub const IID_IXUSER5: u128 = 0xeb9bf948_18dc_4d82_bbcc_40e0a809c4c0;

/// The user interface under its sixth id.
pub const IID_IXUSER6: u128 = 0x1bf2f8c5_d507_4e52_bb05_f726d0e71161;

/// The device interface of the user object.
pub const IID_IXUSER_DEVICE: u128 = 0x0cc6a956_e7e1_4fdf_9341_9d5da649ebc8;

/// The async block and task queue interface.
pub const IID_IXASYNC: u128 = 0x073b7dcb_1fcf_4030_94be_e3c9eb623428;

/// The interfaces that the object serving a class is declared with, in
/// declaration order. Delegated classes are served by another library.
pub open spec fn spec_declared_interfaces(obj: RuntimeObject) -> Seq<u128> {
    match obj {
        RuntimeObject::Feature => seq![IID_IXFEATURE],
        RuntimeObject::Store => seq![IID_IXSTORE, IID_IXSTORE_ALIAS1, IID_IXSTORE_ALIAS2, IID_IXSTORE_ALIAS3],
        RuntimeObject::Networking => seq![IID_IXNETWORKING, IID_IXNETWORKING2],
        RuntimeObject::PersistentLocalStorage => seq![IID_IXPERSISTENT_LOCAL_STORAGE],
        RuntimeObject::User => seq![
            IID_IXUSER,
            IID_IXUSER2,
            IID_IXUSER3,
            IID_IXUSER4,
            IID_IXUSER5,
            IID_IXUSER6,
            IID_IXUSER_DEVICE,
        ],
        RuntimeObject::XAsync => seq![IID_IXASYNC],
        RuntimeObject::Delegated => Seq::<u128>::empty(),
    }
}

/// The interfaces that the object serving a class is declared with.
pub fn declared_interfaces(obj: RuntimeObject) -> (r: Vec<u128>)
    ensures
        r@ == spec_declared_interfaces(obj),
{
    match obj {
        RuntimeObject::Feature => vec![IID_IXFEATURE],
        RuntimeObject::Store => vec![IID_IXSTORE, IID_IXSTORE_ALIAS1, IID_IXSTORE_ALIAS2, IID_IXSTORE_ALIAS3],
        RuntimeObject::Networking => vec![IID_IXNETWORKING, IID_IXNETWORKING2],
        RuntimeObject::PersistentLocalStorage => vec![IID_IXPERSISTENT_LOCAL_STORAGE],
        RuntimeObject::User => vec![
            IID_IXUSER,
            IID_IXUSER2,
            IID_IXUSER3,
            IID_IXUSER4,
            IID_IXUSER5,
            IID_IXUSER6,
            IID_IXUSER_DEVICE,
        ],
        RuntimeObject::XAsync => vec![IID_IXASYNC],
        RuntimeObject::Delegated => Vec::new(),
    }
}

/// Which interfaces each locally served object answers `S_OK` for: the
/// feature object its own interface; the store object `IXStore` and its
/// three other ids; the networking object `IXNetworking` and
/// `IXNetworking2`; the persistent local storage object its interface; the
/// user object `IXUser` to `IXUser6` and `IXUserDevice`; the async object
/// `IXAsync`. A delegated class declares none here.
pub proof fn law_object_interfaces(obj: RuntimeObject, iid: u128)
    ensures
        spec_declared_interfaces(obj).contains(iid) <==> match obj {
            RuntimeObject::Feature => iid == 0x8836fe87_edb9_4fe3_8dad_05f0d2cd5b40u128,
            RuntimeObject::Store => iid == 0x0dd112ac_7c24_448c_b92b_3960fb5bd30cu128
                || iid == 0x5c48dedf_0b67_4492_a4b5_6829b8e796e1u128
                || iid == 0xb09d803c_2414_4a05_82c6_66dfdc9e9a44u128
                || iid == 0x2d42fea5_e71d_4b76_97cd_c50afbb3ae5du128,
            RuntimeObject::Networking => iid == 0x37e56907_2f10_41e8_b72f_36edb185331au128
                || iid == 0xbf2346b2_39af_4658_b5ea_44713c7e83b3u128,
            RuntimeObject::PersistentLocalStorage => iid == 0x41a4e10c_5a7e_41d9_8c37_37bde62a07d6u128,
            RuntimeObject::User => iid == 0x01acd177_91f9_4763_a38e_ccbb55ce32e0u128
                || iid == 0xcef4fac0_7676_4a94_a119_4c43f9eb5b74u128
                || iid == 0x26f3c674_a2fe_44fa_b6c4_a323bc94ff53u128
                || iid == 0x079415e3_6727_437f_8e9d_8f8f9b2439f7u128
                || iid == 0xeb9bf948_18dc_4d82_bbcc_40e0a809c4c0u128
                || iid == 0x1bf2f8c5_d507_4e52_bb05_f726d0e71161u128
                || iid == 0x0cc6a956_e7e1_4fdf_9341_9d5da649ebc8u128,
            RuntimeObject::XAsync => iid == 0x073b7dcb_1fcf_4030_94be_e3c9eb623428u128,
            RuntimeObject::Delegated => false,
        },
{
    let l = spec_declared_interfaces(obj);
    if l.contains(iid) {
        let k = choose|k: int| 0 <= k < l.len() && l[k] == iid;
        assert(0 <= k < l.len() && l[k] == iid);
    } else {
        assert forall|k: int| 0 <= k < l.len() implies l[k] != iid by {}
        if l.len() > 0 { assert(l[0] != iid); }
        if l.len() > 1 { assert(l[1] != iid); }
        if l.len() > 2 { assert(l[2] != iid); }
        if l.len() > 3 { assert(l[3] != iid); }
        if l.len() > 4 { assert(l[4] != iid); }
        if l.len() > 5 { assert(l[5] != iid); }
        if l.len() > 6 { assert(l[6] != iid); }
    }
}

/// Whether the object serving a class is declared with an interface (so
/// that asking it for that interface answers `S_OK`).
pub fn declares_interface(obj: RuntimeObject, iid: u128) -> (r: bool)
    ensures
        r == spec_declared_interfaces(obj).contains(iid),
{
    let list = declared_interfaces(obj);
    let mut i: usize = 0;
    while i < list.len()
        invariant
            list@ == spec_declared_interfaces(obj),
            i <= list@.len(),
            forall|k: int| 0 <= k < i ==> list@[k] != iid,
        decreases list@.len() - i,
    {
        if list[i] == iid {
            assert(list@[i as int] == iid);
            return true;
        }
        i = i + 1;
    }
    false
}

/// The feature query of the runtime.
pub trait IXFeature {
    /// `XGameRuntimeIsFeatureAvailable`.
    fn xgame_runtime_is_feature_available(&self, feature: u32) -> bool;
}

/// The runtime's feature object: every feature is reported available.
#[derive(Clone, Copy, Debug)]
pub struct XFeature;

impl IXFeature for XFeature {
    fn xgame_runtime_is_feature_available(&self, feature: u32) -> (r: bool)
        ensures
            r,
    {
        true
    }
}

/// Space figures of the persistent local storage.
#[derive(Clone, Copy, Debug, PartialEq, Eq, Structural)]
pub struct XPersistentLocalStorageSpaceInfo {
    pub available_free_bytes: u64,
    pub total_free_bytes: u64,
    pub used_bytes: u64,
    pub total_bytes: u64,
}

/// The persistent local storage object: its folder is the process's
/// temporary folder, held as text.
#[derive(Clone, Debug)]
pub struct XPersistentLocalStorage {
    pub tmp_path: String,
}

/// What `XPersistentLocalStorageGetPath` writes into a buffer of
/// `path_size` bytes: as many bytes of the path as fit before a closing NUL,
/// and that NUL; nothing into an empty buffer.
pub open spec fn spec_path_written(path: Seq<u8>, path_size: nat) -> Seq<u8> {
    if path_size == 0 {
        Seq::<u8>::empty()
    } else {
        let n = if path.len() < path_size - 1 { path.len() } else { (path_size - 1) as nat };
        path.subrange(0, n as int).push(0u8)
    }
}

/// The `path_used` that `XPersistentLocalStorageGetPath` reports for a path
/// of `len` bytes and a buffer of `path_size` bytes: the bytes of the path
/// that fit before the closing NUL, plus one.
pub open spec fn spec_path_used(len: nat, path_size: nat) -> nat {
    let room: nat = if path_size == 0 { 0 } else { (path_size - 1) as nat };
    (if len < room { len } else { room }) + 1
}

impl XPersistentLocalStorage {
    /// The storage over a folder.
    pub fn new(tmp_path: String) -> (s: XPersistentLocalStorage)
        ensures
            s.tmp_path@ == tmp_path@,
    {
        XPersistentLocalStorage { tmp_path }
    }

    /// `XPersistentLocalStorageGetPathSize`: the path's length in bytes plus
    /// one for the closing NUL.
    pub fn x_persistent_local_storage_get_path_size(&self) -> (size: usize)
        requires
            vstd::utf8::encode_utf8(self.tmp_path@).len() < usize::MAX,
        ensures
            size == vstd::utf8::encode_utf8(self.tmp_path@).len() + 1,
    {
        self.tmp_path.as_str().len() + 1
    }

    /// `XPersistentLocalStorageGetPath`: the bytes written into a buffer of
    /// `path_size` bytes (as much of the path as fits before a closing NUL),
    /// and the `path_used` reported: the number of path bytes written plus
    /// one. Answers `S_OK`.
    pub fn x_persistent_local_storage_get_path(&self, path_size: usize) -> (r: (Vec<u8>, usize))
        requires
            vstd::utf8::encode_utf8(self.tmp_path@).len() < usize::MAX,
        ensures
            r.0@ == spec_path_written(vstd::utf8::encode_utf8(self.tmp_path@), path_size as nat),
            r.1 == spec_path_used(vstd::utf8::encode_utf8(self.tmp_path@).len(), path_size as nat),
    {
        let bytes = self.tmp_path.as_str().as_bytes();
        let limit = if path_size == 0 { 0 } else { path_size - 1 };
        let n = if bytes.len() < limit { bytes.len() } else { limit };
        let used = n + 1;
        let mut out: Vec<u8> = Vec::new();
        if path_size == 0 {
            return (out, used);
        }
        let mut i: usize = 0;
        while i < n
            invariant
                n <= bytes@.len(),
                i <= n,
                out@ == bytes@.subrange(0, i as int),
            decreases n - i,
        {
            out.push(bytes[i]);
            i = i + 1;
            assert(out@ =~= bytes@.subrange(0, i as int));
        }
        out.push(0u8);
        (out, used)
    }

    /// `XPersistentLocalStorageGetSpaceInfo`: fixed figures (1 GiB free,
    /// 512 MiB used, 2 GiB in all).
    pub fn x_persistent_local_storage_get_space_info(&self) -> (info: XPersistentLocalStorageSpaceInfo)
        ensures
            info == (XPersistentLocalStorageSpaceInfo {
                available_free_bytes: 1073741824,
                total_free_bytes: 1073741824,
                used_bytes: 536870912,
                total_bytes: 2147483648,
            }),
    {
        XPersistentLocalStorageSpaceInfo {
            available_free_bytes: 1024 * 1024 * 1024,
            total_free_bytes: 1024 * 1024 * 1024,
            used_bytes: 512 * 1024 * 1024,
            total_bytes: 2 * 1024 * 1024 * 1024,
        }
    }
}

/// The game license that the store reports.
#[derive(Clone, Copy, Debug)]
pub struct XStoreGameLicense {
    pub sku_store_id: [i8; 18],
    pub is_active: bool,
    pub is_trial_owned_by_this_user: bool,
    pub is_disc_license: bool,
    pub is_trial: bool,
    pub trial_time_remaining_in_seconds: u32,
    pub trial_unique_id: [i8; 64],
    pub expiration_date: i64,
}

impl XStoreGameLicense {
    /// The license reported for every game: active, not a trial, not a disc
    /// license, no time limit, empty ids.
    pub open spec fn spec_is_default(self) -> bool {
        &&& forall|i: int| 0 <= i < 18 ==> self.sku_store_id@[i] == 0
        &&& self.is_active
        &&& !self.is_trial_owned_by_this_user
        &&& !self.is_disc_license
        &&& !self.is_trial
        &&& self.trial_time_remaining_in_seconds == 0
        &&& forall|i: int| 0 <= i < 64 ==> self.trial_unique_id@[i] == 0
        &&& self.expiration_date == 0
    }

    /// The default license.
    pub fn default_license() -> (l: XStoreGameLicense)
        ensures
            l.spec_is_default(),
    {
        XStoreGameLicense {
            sku_store_id: [0i8; 18],
            is_active: true,
            is_trial_owned_by_this_user: false,
            is_disc_license: false,
            is_trial: false,
            trial_time_remaining_in_seconds: 0,
            trial_unique_id: [0i8; 64],
            expiration_date: 0,
        }
    }
}

/// The store interface, whose calls `XStoreObject` answers.
pub trait IXStore {}

/// The store interface under its first other id.
pub trait IXStoreAlias1: IXStore {}

/// The store interface under its second other id.
pub trait IXStoreAlias2: IXStore {}

/// The store interface under its third other id.
pub trait IXStoreAlias3: IXStore {}

/// The store object.
#[derive(Clone, Copy, Debug)]
pub struct XStoreObject;

impl IXStore for XStoreObject {}

impl IXStoreAlias1 for XStoreObject {}

impl IXStoreAlias2 for XStoreObject {}

impl IXStoreAlias3 for XStoreObject {}

impl XStoreObject {
    /// `XStoreCreateContext`: every context is handle 1.
    pub fn x_store_create_context(&self) -> (r: (i32, u64))
        ensures
            r == (S_OK, 1u64),
    {
        (S_OK, 1)
    }

    /// `XStoreQueryGameLicenseAsync`: runs synchronously. A missing block is
    /// accepted with `S_OK` and nothing happens; otherwise the block is
    /// begun and, when that succeeds, its body produces the default license
    /// at once and the block is completed with `S_OK` and the license's
    /// size. Returns the HRESULT, whether the completion callback is posted,
    /// and the provider's context, which holds the license, once the block
    /// was begun.
    pub fn x_store_query_game_license_async(
        &self,
        block_present: bool,
        block: &mut XAsyncBlock,
        license_size: usize,
    ) -> (r: (i32, bool, Option<XAsyncProviderContext<XStoreGameLicense>>))
        requires
            old(block).wf(),
            block_present ==> spec_word_magic(old(block).magic_result) != XASYNC_INITIALIZE_MAGIC,
        ensures
            final(block).wf(),
            !block_present ==> r.0 == S_OK && !r.1 && r.2 is None && *final(block) == *old(block),
            block_present ==> {
                let (begun, hr) = spec_begin(*old(block), true);
                if hr == S_OK {
                    &&& (*final(block), r.1) == spec_complete(begun, S_OK, license_size)
                    &&& r.0 == S_OK
                    &&& match r.2 {
                        Some(c) => spec_store_license_context(c),
                        None => false,
                    }
                } else {
                    &&& *final(block) == *old(block)
                    &&& r.0 == hr
                    &&& !r.1
                    &&& r.2 is None
                }
            },
    {
        let hr = run_begin(block_present, block);
        if !block_present || hr != S_OK {
            return (hr, false, None);
        }
        let mut ctx = XAsyncProviderContext::new();
        let license = XStoreGameLicense::default_license();
        let (_, posted) = ctx.run_sync_finish(block, Ok(license), license_size);
        (S_OK, posted, Some(ctx))
    }

    /// `XStoreQueryGameLicenseResult`: a missing block or license pointer
    /// fails with `E_POINTER`; otherwise the block's result is read, from the
    /// provider's context `ctx`, into a default license: a failure is
    /// answered with no license; on success (`S_OK`) the license handed out
    /// is the one the body produced, or the default license when the context
    /// holds none.
    pub fn x_store_query_game_license_result(
        &self,
        block_present: bool,
        license_present: bool,
        block: &mut XAsyncBlock,
        ctx: &XAsyncProviderContext<XStoreGameLicense>,
    ) -> (r: (i32, Option<XStoreGameLicense>))
        requires
            old(block).wf(),
        ensures
            final(block).wf(),
            (!block_present || !license_present) ==> r.0 == E_POINTER && r.1 is None
                && *final(block) == *old(block),
            (block_present && license_present) ==> {
                &&& *final(block) == spec_get_result(*old(block))
                &&& match spec_result_step(*old(block)) {
                    XAsyncResultStep::Fail(hr) => r.0 == hr && r.1 is None,
                    XAsyncResultStep::ReadFromProvider => {
                        &&& r.0 == S_OK
                        &&& match r.1 {
                            Some(l) => match spec_result_payload(*ctx) {
                                Some(p) => l == p,
                                None => l.spec_is_default(),
                            },
                            None => false,
                        }
                    },
                }
            },
    {
        if !block_present || !license_present {
            return (E_POINTER, None);
        }
        let mut license = XStoreGameLicense::default_license();
        match get_result(block, ctx, &mut license) {
            Ok(()) => (S_OK, Some(license)),
            Err(hr) => (hr, None),
        }
    }
}

/// The context that the store's license query leaves with its provider: a
/// success, not canceled, holding the default license.
pub open spec fn spec_store_license_context(c: XAsyncProviderContext<XStoreGameLicense>) -> bool {
    &&& c.result == S_OK
    &&& !c.canceled
    &&& match c.payload {
        Some(l) => l.spec_is_default(),
        None => false,
    }
}

/// The license that the store's query produces is the one its result hands
/// out: once the block is begun and completed with `S_OK` and a license size,
/// reading the result asks the provider, which copies out the default
/// license.
pub proof fn law_store_license_delivered(b: XAsyncBlock, c: XAsyncProviderContext<XStoreGameLicense>, size: usize, out: XStoreGameLicense)
    requires
        b.wf(),
        !spec_in_use(b.magic_result),
        spec_store_license_context(c),
        size != 0,
    ensures
        ({
            let done = spec_complete(spec_begin(b, true).0, S_OK, size).0;
            let (res, license) = spec_read_result(done, c, out);
            &&& res == Ok::<(), i32>(())
            &&& license.spec_is_default()
            &&& Some(license) == c.payload
        }),
{
    lemma_word_roundtrip(XASYNC_INT_MAGIC, E_PENDING);
    lemma_word_roundtrip(XASYNC_INT_MAGIC, S_OK);
}

/// The networking interface, whose calls `XNetworkingObject` answers.
pub trait IXNetworking {}

/// The networking interface under its second id.
pub trait IXNetworking2: IXNetworking {}

/// The networking object.
#[derive(Clone, Copy, Debug)]
pub struct XNetworkingObject;

impl IXNetworking for XNetworkingObject {}

impl IXNetworking2 for XNetworkingObject {}

impl XNetworkingObject {
    /// `XNetworkingGetConnectivityHint`: a missing out pointer fails with
    /// `E_POINTER`.
    pub fn x_networking_get_connectivity_hint(&self, out_present: bool) -> (r: Result<XNetworkingConnectivityHint, i32>)
        ensures
            r == (if out_present {
                Ok::<XNetworkingConnectivityHint, i32>(spec_connectivity_hint())
            } else {
                Err::<XNetworkingConnectivityHint, i32>(E_POINTER)
            }),
    {
        if !out_present {
            return Err(E_POINTER);
        }
        Ok(XNetworkingConnectivityHint {
            connectivity_level: XNetworkingConnectivityLevelHint::InternetAccess,
            connectivity_cost: XNetworkingConnectivityCostHint::Unrestricted,
            iana_interface_type: 6,
            network_initialized: true,
            approaching_data_limit: false,
            over_data_limit: false,
            roaming: false,
        })
    }

    /// `XNetworkingRegisterConnectivityHintChanged`: a present callback is
    /// called at once with the hint (returned); answers `S_OK`.
    pub fn x_networking_register_connectivity_hint_changed(&self, callback_present: bool) -> (r: (i32, Option<XNetworkingConnectivityHint>))
        ensures
            r.0 == S_OK,
            r.1 == (if callback_present {
                Some(spec_connectivity_hint())
            } else {
                None::<XNetworkingConnectivityHint>
            }),
    {
        if callback_present {
            (S_OK, Some(XNetworkingConnectivityHint {
                connectivity_level: XNetworkingConnectivityLevelHint::InternetAccess,
                connectivity_cost: XNetworkingConnectivityCostHint::Unrestricted,
                iana_interface_type: 6,
                network_initialized: true,
                approaching_data_limit: false,
                over_data_limit: false,
                roaming: false,
            }))
        } else {
            (S_OK, None)
        }
    }

    /// The security information reported for every URL: the protocol flags
    /// of `SECURITY_PROTOCOL_FLAGS` and no thumbprints.
    pub fn security_information(&self) -> (info: XNetworkingSecurityInformation)
        ensures
            spec_is_reported_security_information(info),
    {
        let flags: u32 = 0x80 | 0x200 | 0x800 | 0x2000;
        assert(flags == 0x2A80) by (bit_vector)
            requires
                flags == 0x80u32 | 0x200u32 | 0x800u32 | 0x2000u32,
        ;
        XNetworkingSecurityInformation {
            enabled_http_security_protocol_flags: flags,
            thumbprint_count: 0,
            thumbprints: None,
        }
    }

    /// `XNetworkingQuerySecurityInformationForUrl[Utf16]AsyncResultSize`:
    /// the block's result size.
    pub fn x_networking_query_security_information_for_url_async_result_size(&self, block: &XAsyncBlock) -> (r: Result<usize, i32>)
        requires
            block.wf(),
        ensures
            r == spec_result_size(*block, true),
    {
        block.x_async_get_result_size(true)
    }

    /// `XNetworkingVerifyServerCertificate`: every certificate is accepted.
    pub fn x_networking_verify_server_certificate(&self) -> (hr: i32)
        ensures
            hr == S_OK,
    {
        S_OK
    }

    /// `XNetworkingQuerySecurityInformationForUrl[Utf16]Async`: runs
    /// synchronously, like the store's license query. A missing block is
    /// accepted with `S_OK` and nothing happens; otherwise the block is
    /// begun and, when that succeeds, its body produces the reported
    /// security information at once and the block is completed with `S_OK`
    /// and the information's size. Returns the HRESULT, whether the
    /// completion callback is posted, and the provider's context, which
    /// holds the information, once the block was begun.
    pub fn x_networking_query_security_information_for_url_async(
        &self,
        block_present: bool,
        block: &mut XAsyncBlock,
        information_size: usize,
    ) -> (r: (i32, bool, Option<XAsyncProviderContext<XNetworkingSecurityInformation>>))
        requires
            old(block).wf(),
            block_present ==> spec_word_magic(old(block).magic_result) != XASYNC_INITIALIZE_MAGIC,
        ensures
            final(block).wf(),
            !block_present ==> r.0 == S_OK && !r.1 && r.2 is None && *final(block) == *old(block),
            block_present ==> {
                let (begun, hr) = spec_begin(*old(block), true);
                if hr == S_OK {
                    &&& (*final(block), r.1) == spec_complete(begun, S_OK, information_size)
                    &&& r.0 == S_OK
                    &&& match r.2 {
                        Some(c) => spec_security_information_context(c),
                        None => false,
                    }
                } else {
                    &&& *final(block) == *old(block)
                    &&& r.0 == hr
                    &&& !r.1
                    &&& r.2 is None
                }
            },
    {
        let hr = run_begin(block_present, block);
        if !block_present || hr != S_OK {
            return (hr, false, None);
        }
        let mut ctx = XAsyncProviderContext::new();
        let info = self.security_information();
        let (_, posted) = ctx.run_sync_finish(block, Ok(info), information_size);
        (S_OK, posted, Some(ctx))
    }

    /// `XNetworkingQuerySecurityInformationForUrl[Utf16]AsyncResult`: a
    /// buffer smaller than the information fails with `E_FAIL` before the
    /// block is touched. Otherwise `used` is first reset to zero and the
    /// block's result read from the provider's context `ctx`: a failure is
    /// answered with `used` left at zero; on success (`S_OK`) `used` becomes
    /// the information's size, and the information the body produced is
    /// copied into the buffer. Returns the HRESULT, the value `used` is set
    /// to (if it is set), and the information written into the buffer (none
    /// when nothing was written).
    pub fn x_networking_query_security_information_for_url_async_result(
        &self,
        block: &mut XAsyncBlock,
        ctx: &XAsyncProviderContext<XNetworkingSecurityInformation>,
        buffer_byte_count: usize,
        information_size: usize,
    ) -> (r: (i32, Option<usize>, Option<XNetworkingSecurityInformation>))
        requires
            old(block).wf(),
        ensures
            final(block).wf(),
            buffer_byte_count < information_size ==> r.0 == E_FAIL && r.1 is None && r.2 is None
                && *final(block) == *old(block),
            buffer_byte_count >= information_size ==> {
                &&& *final(block) == spec_get_result(*old(block))
                &&& match spec_result_step(*old(block)) {
                    XAsyncResultStep::Fail(hr) => r.0 == hr && r.1 == Some(0usize) && r.2 is None,
                    XAsyncResultStep::ReadFromProvider => {
                        &&& r.0 == S_OK
                        &&& r.1 == Some(information_size)
                        &&& r.2 == spec_result_payload(*ctx)
                    },
                }
            },
    {
        if buffer_byte_count < information_size {
            return (E_FAIL, None, None);
        }
        match block.x_async_get_result() {
            XAsyncResultStep::ReadFromProvider => (S_OK, Some(information_size), ctx.result_payload()),
            XAsyncResultStep::Fail(hr) => (hr, Some(0), None),
        }
    }
}

/// The security information reported for every URL: the flags of
/// `SECURITY_PROTOCOL_FLAGS`, no thumbprints and a null thumbprint pointer.
pub open spec fn spec_is_reported_security_information(info: XNetworkingSecurityInformation) -> bool {
    &&& info.enabled_http_security_protocol_flags == SECURITY_PROTOCOL_FLAGS
    &&& info.thumbprint_count == 0
    &&& info.thumbprints is None
}

/// The context that the security information query leaves with its
/// provider: a success, not canceled, holding the reported information.
pub open spec fn spec_security_information_context(c: XAsyncProviderContext<XNetworkingSecurityInformation>) -> bool {
    &&& c.result == S_OK
    &&& !c.canceled
    &&& match c.payload {
        Some(info) => spec_is_reported_security_information(info),
        None => false,
    }
}

/// The one feature object of the process.
pub fn xfeature_singleton() -> (f: XFeature) {
    XFeature
}

/// The one store object of the process.
pub fn xstore_singleton() -> (s: XStoreObject) {
    XStoreObject
}

/// The one networking object of the process.
pub fn xnetworking_singleton() -> (n: XNetworkingObject) {
    XNetworkingObject
}

/// The one persistent local storage object of the process, over the
/// process's temporary folder (given as text).
pub fn xpersistent_local_storage_singleton(temp_dir: String) -> (s: XPersistentLocalStorage)
    ensures
        s.tmp_path@ == temp_dir@,
{
    XPersistentLocalStorage::new(temp_dir)
}

} // verus!
