//! What discovery finds: the identity of a node and the list of devices as
//! functions of the filesystem, and the proof that the step-by-step
//! resolution and enumeration arrive at them.

use crate::device::DeviceInfoView;
use crate::error::ErrorView;
use crate::hidraw::enumerate::{
    after_resolution, dev_dir, enumerate_answer_spec, start_spec, turn_to,
    EnumerateStage, EnumerationView, EnumeratorView, Selection,
};
use crate::hidraw::interface::interface_of;
use crate::hidraw::paths::{join_spec, path_file_name, path_parent};
use crate::hidraw::resolve::{
    answer_spec, ask, begin_spec, class_dir, hex_attr_spec, string_attr_spec, ResolutionView,
    ResolveStage, ResolverView, MAX_WALK_DEPTH,
};
use crate::hidraw::sysfs::Sysfs;
use vstd::prelude::*;

verus! {

/// The directory of the USB device: the first that holds a vendor id among
/// `levels` directories, from `dir` upward.
pub open spec fn usb_dir(fs: Sysfs, dir: Seq<char>, levels: nat) -> Option<Seq<char>>
    decreases levels,
{
    if levels == 0 {
        None
    } else if (fs.exists)(join_spec(dir, "idVendor"@)) {
        Some(dir)
    } else {
        match path_parent(dir) {
            Some(up) => usb_dir(fs, up, (levels - 1) as nat),
            None => None,
        }
    }
}

/// The identity that the attributes of the USB device directory give.
/// Vendor and product id are required; the strings are optional. The
/// interface number is the one that `target`, the canonical path of the
/// device, names.
pub open spec fn identity_of(fs: Sysfs, node: Seq<char>, target: Seq<char>, usb: Seq<char>)
    -> Result<DeviceInfoView, ErrorView> {
    let vendor = join_spec(usb, "idVendor"@);
    let product = join_spec(usb, "idProduct"@);
    match hex_attr_spec(vendor, (fs.text)(vendor)) {
        Err(e) => Err(e),
        Ok(vendor_id) => match hex_attr_spec(product, (fs.text)(product)) {
            Err(e) => Err(e),
            Ok(product_id) => Ok(
                DeviceInfoView {
                    path: node,
                    vendor_id,
                    product_id,
                    serial_number: string_attr_spec((fs.text)(join_spec(usb, "serial"@))),
                    manufacturer: string_attr_spec((fs.text)(join_spec(usb, "manufacturer"@))),
                    product: string_attr_spec((fs.text)(join_spec(usb, "product"@))),
                    interface_number: match interface_of(target) {
                        Some(n) => n,
                        None => 0,
                    },
                },
            ),
        },
    }
}

/// The identity of the device node at `node` in the filesystem `fs`.
///
/// The node's short name must have an entry in the class directory. From
/// the target of that entry's `device` link the USB device directory is
/// looked for, at most ten levels up. Its attributes give the identity,
/// and the target of the link gives the interface number.
pub open spec fn resolve_spec(fs: Sysfs, node: Seq<char>) -> Result<DeviceInfoView, ErrorView> {
    match path_file_name(node) {
        None => Err(ErrorView::InvalidPath("Invalid device path"@)),
        Some(name) => {
            let entry = join_spec(class_dir(), name);
            let link = join_spec(entry, "device"@);
            if !(fs.exists)(entry) {
                Err(ErrorView::Parse("sysfs path "@ + entry + " does not exist"@))
            } else {
                match (fs.canonical)(link) {
                    Err(e) => Err(
                        ErrorView::Parse("Failed to canonicalize path: "@ + e.message),
                    ),
                    Ok(target) => match usb_dir(fs, target, MAX_WALK_DEPTH as nat) {
                        None => Err(ErrorView::Parse("Could not find USB device in sysfs"@)),
                        Some(usb) => identity_of(fs, node, target, usb),
                    },
                }
            }
        },
    }
}

/// The result of a resolution that is carried on against `fs` for at most
/// `fuel` questions; nothing if it is not over by then.
pub open spec fn run_resolution(fs: Sysfs, resolution: ResolutionView, fuel: nat) -> Option<
    Result<DeviceInfoView, ErrorView>,
>
    decreases fuel,
{
    match resolution {
        ResolutionView::Done(result) => Some(result),
        ResolutionView::Ask(state, query) => if fuel == 0 {
            None
        } else {
            run_resolution(fs, answer_spec(state, fs.answer(query)), (fuel - 1) as nat)
        },
    }
}

/// A resolution that is over within some number of questions is over with
/// the same result within any larger number.
pub proof fn lemma_run_resolution_more(
    fs: Sysfs,
    resolution: ResolutionView,
    fuel: nat,
    more: nat,
)
    requires
        run_resolution(fs, resolution, fuel) is Some,
    ensures
        run_resolution(fs, resolution, fuel + more) == run_resolution(fs, resolution, fuel),
    decreases fuel,
{
    match resolution {
        ResolutionView::Done(_) => {},
        ResolutionView::Ask(state, query) => {
            lemma_run_resolution_more(
                fs,
                answer_spec(state, fs.answer(query)),
                (fuel - 1) as nat,
                more,
            );
        },
    }
}

/// From the reading of the vendor id on, five questions give the identity
/// that the attributes of the directory hold.
proof fn lemma_run_attributes(fs: Sysfs, state: ResolverView)
    requires
        state.stage == ResolveStage::VendorId,
    ensures
        run_resolution(fs, ask(state), 5) == Some(
            identity_of(fs, state.node, state.target, state.dir),
        ),
{
    reveal_with_fuel(run_resolution, 6);
}

/// From a directory of the walk on, the questions that the remaining
/// levels and the attributes take give the identity of the USB device
/// directory found from there, or the failure of the walk.
proof fn lemma_run_walk(fs: Sysfs, state: ResolverView)
    requires
        state.stage == ResolveStage::Walk,
        state.level < MAX_WALK_DEPTH,
    ensures
        run_resolution(fs, ask(state), (MAX_WALK_DEPTH - state.level + 5) as nat) == Some(
            match usb_dir(fs, state.dir, (MAX_WALK_DEPTH - state.level) as nat) {
                None => Err(ErrorView::Parse("Could not find USB device in sysfs"@)),
                Some(usb) => identity_of(fs, state.node, state.target, usb),
            },
        ),
    decreases MAX_WALK_DEPTH - state.level,
{
    let fuel = (MAX_WALK_DEPTH - state.level + 5) as nat;
    let next = answer_spec(state, fs.answer(state.query()));
    assert(run_resolution(fs, ask(state), fuel) == run_resolution(fs, next, (fuel - 1) as nat));
    if (fs.exists)(join_spec(state.dir, "idVendor"@)) {
        let found = ResolverView { stage: ResolveStage::VendorId, ..state };
        lemma_run_attributes(fs, found);
        lemma_run_resolution_more(fs, ask(found), 5, (fuel - 6) as nat);
    } else if state.level + 1 < MAX_WALK_DEPTH {
        match path_parent(state.dir) {
            Some(up) => {
                let above = ResolverView { dir: up, level: state.level + 1, ..state };
                lemma_run_walk(fs, above);
            },
            None => {},
        }
    } else {
        match path_parent(state.dir) {
            Some(up) => {
                assert(usb_dir(fs, up, 0) is None);
            },
            None => {},
        }
    }
}

/// Resolution arrives at the identity: carried on against a filesystem,
/// the questions of a resolution end after at most seventeen answers, with
/// the identity that the filesystem holds for the node or with the failure
/// that it gives.
pub proof fn lemma_resolution_finds_identity(fs: Sysfs, node: Seq<char>)
    ensures
        run_resolution(fs, begin_spec(node), 17) == Some(resolve_spec(fs, node)),
{
    reveal_with_fuel(run_resolution, 3);
    match path_file_name(node) {
        None => {},
        Some(name) => {
            let entry = join_spec(class_dir(), name);
            let link = join_spec(entry, "device"@);
            if (fs.exists)(entry) {
                match (fs.canonical)(link) {
                    Err(_) => {},
                    Ok(target) => {
                        let walk = ResolverView {
                            stage: ResolveStage::Walk,
                            node,
                            link,
                            target,
                            dir: target,
                            level: 0,
                            vendor_id: 0,
                            product_id: 0,
                            manufacturer: None,
                            product: None,
                        };
                        lemma_run_walk(fs, walk);
                    },
                }
            }
        },
    }
}

/// The directory `levels` levels above `dir`, if the path reaches that far.
pub open spec fn ancestor(dir: Seq<char>, levels: nat) -> Option<Seq<char>>
    decreases levels,
{
    if levels == 0 {
        Some(dir)
    } else {
        match path_parent(dir) {
            Some(up) => ancestor(up, (levels - 1) as nat),
            None => None,
        }
    }
}

/// Where none of the directories within reach holds a vendor id, the walk
/// finds no USB device.
proof fn lemma_usb_dir_missing(fs: Sysfs, dir: Seq<char>, levels: nat)
    requires
        forall|k: nat|
            k < levels ==> (#[trigger] ancestor(dir, k) matches Some(d) ==> !(fs.exists)(
                join_spec(d, "idVendor"@),
            )),
    ensures
        usb_dir(fs, dir, levels) is None,
    decreases levels,
{
    if levels > 0 {
        assert(ancestor(dir, 0) == Some(dir));
        match path_parent(dir) {
            Some(up) => {
                assert forall|k: nat| k < levels - 1 implies (#[trigger] ancestor(up, k) matches Some(
                    d,
                ) ==> !(fs.exists)(join_spec(d, "idVendor"@))) by {
                    assert(ancestor(dir, k + 1) == ancestor(up, k));
                }
                lemma_usb_dir_missing(fs, up, (levels - 1) as nat);
            },
            None => {},
        }
    }
}

/// A hierarchy without vendor id within the depth of the walk: where the
/// node has its class entry and its device link resolves, but none of the
/// ten directories from the link's target upward holds a vendor id, the
/// resolution fails with a parse error.
pub proof fn lemma_missing_vendor_id_fails(fs: Sysfs, node: Seq<char>)
    requires
        path_file_name(node) is Some,
        (fs.exists)(join_spec(class_dir(), path_file_name(node)->0)),
        (fs.canonical)(
            join_spec(join_spec(class_dir(), path_file_name(node)->0), "device"@),
        ) is Ok,
        forall|k: nat|
            k < MAX_WALK_DEPTH ==> (#[trigger] ancestor(
                (fs.canonical)(
                    join_spec(join_spec(class_dir(), path_file_name(node)->0), "device"@),
                )->Ok_0,
                k,
            ) matches Some(d) ==> !(fs.exists)(join_spec(d, "idVendor"@))),
    ensures
        resolve_spec(fs, node) == Err::<DeviceInfoView, ErrorView>(
            ErrorView::Parse("Could not find USB device in sysfs"@),
        ),
        run_resolution(fs, begin_spec(node), 17) == Some(
            Err::<DeviceInfoView, ErrorView>(
                ErrorView::Parse("Could not find USB device in sysfs"@),
            ),
        ),
{
    let link = join_spec(join_spec(class_dir(), path_file_name(node)->0), "device"@);
    lemma_usb_dir_missing(fs, (fs.canonical)(link)->Ok_0, MAX_WALK_DEPTH as nat);
    lemma_resolution_finds_identity(fs, node);
}

/// The identity behind a name of the class directory: that of its device
/// node, if the node exists and resolves.
pub open spec fn device_at(fs: Sysfs, name: Seq<char>) -> Option<DeviceInfoView> {
    let node = join_spec(dev_dir(), name);
    if (fs.exists)(node) {
        match resolve_spec(fs, node) {
            Ok(info) => Some(info),
            Err(_) => None,
        }
    } else {
        None
    }
}

/// The identities behind a list of names that the selection keeps, in the
/// order of the names. A name whose node is missing or does not resolve
/// contributes nothing.
pub open spec fn discovered(fs: Sysfs, selection: Selection, names: Seq<Seq<char>>) -> Seq<
    DeviceInfoView,
>
    decreases names.len(),
{
    if names.len() == 0 {
        Seq::empty()
    } else {
        let before = discovered(fs, selection, names.drop_last());
        match device_at(fs, names.last()) {
            Some(info) => if selection.keeps(info) {
                before.push(info)
            } else {
                before
            },
            None => before,
        }
    }
}

/// The devices of the filesystem `fs` that the selection keeps.
///
/// Without the class directory the system does not support hidraw. A
/// failure to list the directory is an I/O failure. Otherwise every name
/// in the directory is looked at.
pub open spec fn enumerate_spec(fs: Sysfs, selection: Selection) -> Result<
    Seq<DeviceInfoView>,
    ErrorView,
> {
    if !(fs.exists)(class_dir()) {
        Err(ErrorView::NotSupported("hidraw not available on this system"@))
    } else {
        match (fs.entries)(class_dir()) {
            Err(e) => Err(ErrorView::Io(e)),
            Ok(names) => Ok(discovered(fs, selection, names)),
        }
    }
}

/// The result of an enumeration that is carried on against `fs` for at
/// most `fuel` questions; nothing if it is not over by then.
pub open spec fn run_enumeration(fs: Sysfs, enumeration: EnumerationView, fuel: nat) -> Option<
    Result<Seq<DeviceInfoView>, ErrorView>,
>
    decreases fuel,
{
    match enumeration {
        EnumerationView::Done(result) => Some(result),
        EnumerationView::Ask(state, query) => if fuel == 0 {
            None
        } else {
            run_enumeration(
                fs,
                enumerate_answer_spec(state, fs.answer(query)),
                (fuel - 1) as nat,
            )
        },
    }
}

/// An enumeration that is over within some number of questions is over
/// with the same result within any larger number.
pub proof fn lemma_run_enumeration_more(
    fs: Sysfs,
    enumeration: EnumerationView,
    fuel: nat,
    more: nat,
)
    requires
        run_enumeration(fs, enumeration, fuel) is Some,
    ensures
        run_enumeration(fs, enumeration, fuel + more) == run_enumeration(fs, enumeration, fuel),
    decreases fuel,
{
    match enumeration {
        EnumerationView::Done(_) => {},
        EnumerationView::Ask(state, query) => {
            lemma_run_enumeration_more(
                fs,
                enumerate_answer_spec(state, fs.answer(query)),
                (fuel - 1) as nat,
                more,
            );
        },
    }
}

/// Whether the question that a resolution asks is the pending question of
/// its state. Every resolution that begins or follows from an answer is of
/// this kind.
pub open spec fn coherent(resolution: ResolutionView) -> bool {
    match resolution {
        ResolutionView::Ask(state, query) => query == state.query(),
        ResolutionView::Done(_) => true,
    }
}

/// While a node is resolved, the enumeration follows the resolution
/// question by question: once the resolution is over, the enumeration
/// stands where the result of the resolution puts it.
proof fn lemma_enumeration_follows_resolution(
    fs: Sysfs,
    state: EnumeratorView,
    resolution: ResolutionView,
    steps: nat,
    fuel: nat,
)
    requires
        coherent(resolution),
        run_resolution(fs, resolution, steps) is Some,
        run_enumeration(
            fs,
            after_resolution(
                state,
                ResolutionView::Done(run_resolution(fs, resolution, steps)->0),
            ),
            fuel,
        ) is Some,
    ensures
        run_enumeration(fs, after_resolution(state, resolution), steps + fuel) == run_enumeration(
            fs,
            after_resolution(
                state,
                ResolutionView::Done(run_resolution(fs, resolution, steps)->0),
            ),
            fuel,
        ),
    decreases steps,
{
    match resolution {
        ResolutionView::Done(result) => {
            lemma_run_enumeration_more(fs, after_resolution(state, resolution), fuel, steps);
        },
        ResolutionView::Ask(next, query) => {
            let resolving = EnumeratorView {
                stage: EnumerateStage::Resolving,
                resolver: Some(next),
                ..state
            };
            let stepped = answer_spec(next, fs.answer(query));
            assert(coherent(stepped));
            assert(enumerate_answer_spec(resolving, fs.answer(resolving.query()))
                == after_resolution(resolving, stepped));
            assert(after_resolution(resolving, stepped) == after_resolution(state, stepped));
            assert(after_resolution(
                resolving,
                ResolutionView::Done(run_resolution(fs, resolution, steps)->0),
            ) == after_resolution(
                state,
                ResolutionView::Done(run_resolution(fs, resolution, steps)->0),
            ));
            lemma_enumeration_follows_resolution(fs, state, stepped, (steps - 1) as nat, fuel);
        },
    }
}

/// From the name at `index` on, with the identities of the names before it
/// in hand, the enumeration ends with the identities of all the names.
proof fn lemma_run_names(fs: Sysfs, state: EnumeratorView, index: nat) -> (fuel: nat)
    requires
        index <= state.names.len(),
    ensures
        run_enumeration(
            fs,
            turn_to(state, index, discovered(fs, state.selection, state.names.take(index as int))),
            fuel,
        ) == Some(
            Ok::<Seq<DeviceInfoView>, ErrorView>(discovered(fs, state.selection, state.names)),
        ),
    decreases state.names.len() - index,
{
    let names = state.names;
    let found = discovered(fs, state.selection, names.take(index as int));
    if index >= names.len() {
        assert(names.take(index as int) =~= names);
        0
    } else {
        let name = names[index as int];
        let node = join_spec(dev_dir(), name);
        let at = EnumeratorView {
            stage: EnumerateStage::Node,
            index,
            devices: found,
            resolver: None,
            ..state
        };
        let longer = names.take(index as int + 1);
        assert(longer.drop_last() =~= names.take(index as int));
        assert(longer.last() == name);
        let rest = lemma_run_names(fs, state, index + 1);
        let after = discovered(fs, state.selection, longer);
        assert(turn_to(at, index + 1, after) == turn_to(state, index + 1, after));
        if (fs.exists)(node) {
            lemma_resolution_finds_identity(fs, node);
            let result = resolve_spec(fs, node);
            assert(after_resolution(at, ResolutionView::Done(result)) == turn_to(
                at,
                index + 1,
                after,
            ));
            lemma_enumeration_follows_resolution(fs, at, begin_spec(node), 17, rest);
            assert(enumerate_answer_spec(at, fs.answer(at.query())) == after_resolution(
                at,
                begin_spec(node),
            ));
            17 + rest + 1
        } else {
            assert(enumerate_answer_spec(at, fs.answer(at.query())) == turn_to(
                at,
                index + 1,
                after,
            ));
            rest + 1
        }
    }
}

/// Enumeration arrives at the devices: carried on against a filesystem,
/// the questions of an enumeration come to an end, with the devices that
/// the filesystem holds and the selection keeps, or with the failure that
/// the class directory gives. A node that does not resolve is passed over
/// and the names after it are still looked at.
pub proof fn lemma_enumeration_finds_devices(fs: Sysfs, selection: Selection)
    ensures
        exists|fuel: nat| #[trigger]
            run_enumeration(fs, start_spec(selection), fuel) == Some(
                enumerate_spec(fs, selection),
            ),
{
    reveal_with_fuel(run_enumeration, 3);
    let start = EnumeratorView {
        stage: EnumerateStage::ClassDir,
        selection,
        names: Seq::empty(),
        index: 0,
        devices: Seq::empty(),
        resolver: None,
    };
    if !(fs.exists)(class_dir()) {
        assert(run_enumeration(fs, start_spec(selection), 1) == Some(
            enumerate_spec(fs, selection),
        ));
    } else {
        match (fs.entries)(class_dir()) {
            Err(e) => {
                assert(run_enumeration(fs, start_spec(selection), 2) == Some(
                    enumerate_spec(fs, selection),
                ));
            },
            Ok(names) => {
                let listed = EnumeratorView { names, ..start };
                assert(names.take(0) =~= Seq::<Seq<char>>::empty());
                let rest = lemma_run_names(fs, listed, 0);
                assert(run_enumeration(fs, start_spec(selection), rest + 2) == Some(
                    enumerate_spec(fs, selection),
                ));
            },
        }
    }
}

/// Finding is enumerating and keeping what matches: on a filesystem on
/// which enumeration succeeds, finding by vendor and product id succeeds
/// with the devices of the enumeration whose ids match, in the same order,
/// and where enumeration fails, finding fails in the same way.
pub proof fn lemma_find_devices_filters(fs: Sysfs, vendor_id: u16, product_id: u16)
    ensures
        enumerate_spec(fs, Selection::Matching { vendor_id, product_id }) == match enumerate_spec(
            fs,
            Selection::All,
        ) {
            Ok(all) => Ok(all.filter(|info: DeviceInfoView| info.matches(vendor_id, product_id))),
            Err(e) => Err(e),
        },
{
    if (fs.exists)(class_dir()) {
        match (fs.entries)(class_dir()) {
            Ok(names) => {
                lemma_find_is_filtered_enumeration(fs, names, vendor_id, product_id);
            },
            Err(_) => {},
        }
    }
}

/// Finding by vendor and product id gives exactly the matching devices:
/// what the enumeration for one vendor and product keeps is what the
/// enumeration of all devices finds, reduced to the identities whose vendor
/// and product id match, in the same order.
pub proof fn lemma_find_is_filtered_enumeration(
    fs: Sysfs,
    names: Seq<Seq<char>>,
    vendor_id: u16,
    product_id: u16,
)
    ensures
        discovered(fs, Selection::Matching { vendor_id, product_id }, names) == discovered(
            fs,
            Selection::All,
            names,
        ).filter(|info: DeviceInfoView| info.matches(vendor_id, product_id)),
    decreases names.len(),
{
    let matching = Selection::Matching { vendor_id, product_id };
    let pred = |info: DeviceInfoView| info.matches(vendor_id, product_id);
    reveal(Seq::filter);
    if names.len() > 0 {
        lemma_find_is_filtered_enumeration(fs, names.drop_last(), vendor_id, product_id);
        let before = discovered(fs, Selection::All, names.drop_last());
        match device_at(fs, names.last()) {
            Some(info) => {
                assert(before.push(info).drop_last() =~= before);
            },
            None => {},
        }
    }
}

/// A node without attribute directory does not resolve: where the class
/// directory has no entry of the node's short name, the resolution fails
/// with a parse error.
pub proof fn lemma_missing_class_entry_fails(fs: Sysfs, node: Seq<char>)
    requires
        path_file_name(node) is Some,
        !(fs.exists)(join_spec(class_dir(), path_file_name(node)->0)),
    ensures
        resolve_spec(fs, node) == Err::<DeviceInfoView, ErrorView>(
            ErrorView::Parse(
                "sysfs path "@ + join_spec(class_dir(), path_file_name(node)->0)
                    + " does not exist"@,
            ),
        ),
{
}

/// The interface number comes from the resolved path of the device: an
/// identity that is found has the interface number that the canonical
/// target of the node's `device` link names, and 0 where it names none.
pub proof fn lemma_interface_from_resolved_path(fs: Sysfs, node: Seq<char>)
    requires
        resolve_spec(fs, node) is Ok,
    ensures
        path_file_name(node) is Some,
        (fs.canonical)(
            join_spec(join_spec(class_dir(), path_file_name(node)->0), "device"@),
        ) is Ok,
        resolve_spec(fs, node)->Ok_0.interface_number == match interface_of(
            (fs.canonical)(
                join_spec(join_spec(class_dir(), path_file_name(node)->0), "device"@),
            )->Ok_0,
        ) {
            Some(n) => n,
            None => 0,
        },
{
}

} // verus!
