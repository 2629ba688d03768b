//! Device enumeration and discovery functionality

use crate::device::{DeviceInfo, DeviceInfoView};
use crate::error::{Error, ErrorView, Result};
use crate::hidraw::paths::{join, join_spec};
use crate::hidraw::resolve::{
    answer_spec, begin_spec, class_dir, Resolution, ResolutionView, Resolver, ResolverView,
};
use crate::hidraw::sysfs::{texts, SysfsAnswer, SysfsAnswerView, SysfsQuery, SysfsQueryView};
use vstd::prelude::*;
use vstd::string::*;

verus! {

/// The directory of the device nodes.
pub open spec fn dev_dir() -> Seq<char> {
    "/dev"@
}

/// Which identities an enumeration keeps: all, or those of one vendor and
/// product.
#[derive(Debug, Clone, Copy, PartialEq, Eq, Structural)]
pub enum Selection {
    All,
    Matching { vendor_id: u16, product_id: u16 },
}

impl Selection {
    /// Whether the selection keeps the identity.
    pub open spec fn keeps(self, info: DeviceInfoView) -> bool {
        match self {
            Selection::All => true,
            Selection::Matching { vendor_id, product_id } => info.matches(vendor_id, product_id),
        }
    }

    /// Whether the selection keeps the identity.
    pub fn accepts(&self, info: &DeviceInfo) -> (b: bool)
        ensures
            b == self.keeps(info@),
    {
        match self {
            Selection::All => true,
            Selection::Matching { vendor_id, product_id } => info.matches(*vendor_id, *product_id),
        }
    }
}

/// What an enumeration waits for.
#[derive(Debug, Clone, Copy, PartialEq, Eq, Structural)]
pub enum EnumerateStage {
    /// Whether the class directory exists.
    ClassDir,
    /// The names in the class directory.
    Listing,
    /// Whether the device node of the current name exists.
    Node,
    /// An answer for the resolution of the current node.
    Resolving,
}

/// An enumeration under way. It always has one question pending.
pub struct Enumerator {
    stage: EnumerateStage,
    selection: Selection,
    names: Vec<String>,
    index: usize,
    devices: Vec<DeviceInfo>,
    resolver: Option<Resolver>,
}

/// The identities in a list, as mathematical values.
pub open spec fn infos(devices: Seq<DeviceInfo>) -> Seq<DeviceInfoView> {
    Seq::new(devices.len(), |i: int| devices[i]@)
}

/// Mathematical value of an [`Enumerator`]: the stage, which identities
/// are kept, the names in the class directory, the position of the name
/// that is looked at, the identities found so far, and the resolution of
/// the current node.
pub struct EnumeratorView {
    pub stage: EnumerateStage,
    pub selection: Selection,
    pub names: Seq<Seq<char>>,
    pub index: nat,
    pub devices: Seq<DeviceInfoView>,
    pub resolver: Option<ResolverView>,
}

impl EnumeratorView {
    /// What holds of every enumeration.
    pub open spec fn valid(self) -> bool {
        match self.stage {
            EnumerateStage::ClassDir | EnumerateStage::Listing => true,
            EnumerateStage::Node => self.index < self.names.len(),
            EnumerateStage::Resolving => self.index < self.names.len() && self.resolver is Some
                && self.resolver->0.valid(),
        }
    }

    /// The question that is pending.
    pub open spec fn query(self) -> SysfsQueryView {
        match self.stage {
            EnumerateStage::ClassDir => SysfsQueryView::Exists(class_dir()),
            EnumerateStage::Listing => SysfsQueryView::ReadDir(class_dir()),
            EnumerateStage::Node => SysfsQueryView::Exists(
                join_spec(dev_dir(), self.names[self.index as int]),
            ),
            EnumerateStage::Resolving => self.resolver->0.query(),
        }
    }
}

/// How an enumeration goes on: with a question, or with its result.
pub enum Enumeration {
    Ask(Enumerator, SysfsQuery),
    Done(Result<Vec<DeviceInfo>>),
}

/// Mathematical value of an [`Enumeration`].
pub enum EnumerationView {
    Ask(EnumeratorView, SysfsQueryView),
    Done(core::result::Result<Seq<DeviceInfoView>, ErrorView>),
}

impl View for Enumerator {
    type V = EnumeratorView;

    closed spec fn view(&self) -> EnumeratorView {
        EnumeratorView {
            stage: self.stage,
            selection: self.selection,
            names: texts(self.names@),
            index: self.index as nat,
            devices: infos(self.devices@),
            resolver: match self.resolver {
                Some(r) => Some(r@),
                None => None,
            },
        }
    }
}

impl View for Enumeration {
    type V = EnumerationView;

    open spec fn view(&self) -> EnumerationView {
        match *self {
            Enumeration::Ask(enumerator, query) => EnumerationView::Ask(enumerator@, query@),
            Enumeration::Done(Ok(devices)) => EnumerationView::Done(Ok(infos(devices@))),
            Enumeration::Done(Err(e)) => EnumerationView::Done(Err(e@)),
        }
    }
}

/// Going on from a state: with its pending question.
pub open spec fn ask_next(state: EnumeratorView) -> EnumerationView {
    EnumerationView::Ask(state, state.query())
}

/// Start of an enumeration: the first question is whether the class
/// directory exists.
pub open spec fn start_spec(selection: Selection) -> EnumerationView {
    ask_next(
        EnumeratorView {
            stage: EnumerateStage::ClassDir,
            selection,
            names: Seq::empty(),
            index: 0,
            devices: Seq::empty(),
            resolver: None,
        },
    )
}

/// Turning to the name at `index`: past the last name the enumeration is
/// done with the identities found; otherwise the question is whether the
/// device node of that name exists.
pub open spec fn turn_to(state: EnumeratorView, index: nat, devices: Seq<DeviceInfoView>)
    -> EnumerationView {
    if index >= state.names.len() {
        EnumerationView::Done(Ok(devices))
    } else {
        ask_next(
            EnumeratorView {
                stage: EnumerateStage::Node,
                index,
                devices,
                resolver: None,
                ..state
            },
        )
    }
}

/// The enumeration after a step of the current node's resolution: a
/// question of the resolution is passed on; an identity is kept if the
/// selection keeps it; a failed resolution is passed over. In the last two
/// cases the next name follows.
pub open spec fn after_resolution(state: EnumeratorView, resolution: ResolutionView)
    -> EnumerationView {
    match resolution {
        ResolutionView::Ask(next, _) => ask_next(
            EnumeratorView { stage: EnumerateStage::Resolving, resolver: Some(next), ..state },
        ),
        ResolutionView::Done(Ok(info)) => turn_to(
            state,
            state.index + 1,
            if state.selection.keeps(info) {
                state.devices.push(info)
            } else {
                state.devices
            },
        ),
        ResolutionView::Done(Err(_)) => turn_to(state, state.index + 1, state.devices),
    }
}

/// One step of an enumeration: what follows from the answer to the pending
/// question.
pub open spec fn enumerate_answer_spec(state: EnumeratorView, answer: SysfsAnswerView)
    -> EnumerationView {
    match state.stage {
        EnumerateStage::ClassDir => if answer->Exists_0 {
            ask_next(EnumeratorView { stage: EnumerateStage::Listing, ..state })
        } else {
            EnumerationView::Done(
                Err(ErrorView::NotSupported("hidraw not available on this system"@)),
            )
        },
        EnumerateStage::Listing => match answer->Entries_0 {
            Err(e) => EnumerationView::Done(Err(ErrorView::Io(e))),
            Ok(names) => turn_to(EnumeratorView { names, ..state }, 0, Seq::empty()),
        },
        EnumerateStage::Node => if answer->Exists_0 {
            after_resolution(
                state,
                begin_spec(join_spec(dev_dir(), state.names[state.index as int])),
            )
        } else {
            turn_to(state, state.index + 1, state.devices)
        },
        EnumerateStage::Resolving => after_resolution(
            state,
            answer_spec(state.resolver->0, answer),
        ),
    }
}

impl Enumerator {
    #[verifier::type_invariant]
    spec fn consistent(self) -> bool {
        self@.valid()
    }

    /// The question that is pending.
    pub fn query(&self) -> (q: SysfsQuery)
        ensures
            q@ == self@.query(),
    {
        proof {
            use_type_invariant(self);
        }
        match self.stage {
            EnumerateStage::ClassDir => SysfsQuery::Exists(String::from_str("/sys/class/hidraw")),
            EnumerateStage::Listing => SysfsQuery::ReadDir(String::from_str("/sys/class/hidraw")),
            EnumerateStage::Node => SysfsQuery::Exists(
                join("/dev", self.names[self.index].as_str()),
            ),
            EnumerateStage::Resolving => match &self.resolver {
                Some(resolver) => resolver.query(),
                None => unreached(),
            },
        }
    }

    /// Goes on with the pending question of `self`.
    fn asking(self) -> (r: Enumeration)
        ensures
            r@ == ask_next(self@),
    {
        let query = self.query();
        Enumeration::Ask(self, query)
    }

    /// Begins an enumeration that keeps what `selection` keeps.
    pub fn start(selection: Selection) -> (r: Enumeration)
        ensures
            r@ == start_spec(selection),
            r@ matches EnumerationView::Ask(next, _) ==> next.valid(),
    {
        let names: Vec<String> = Vec::new();
        let devices: Vec<DeviceInfo> = Vec::new();
        assert(texts(names@) =~= Seq::<Seq<char>>::empty());
        assert(infos(devices@) =~= Seq::<DeviceInfoView>::empty());
        let enumerator = Enumerator {
            stage: EnumerateStage::ClassDir,
            selection,
            names,
            index: 0,
            devices,
            resolver: None,
        };
        enumerator.asking()
    }

    /// Turns to the name at `index`.
    fn turn(selection: Selection, names: Vec<String>, index: usize, devices: Vec<DeviceInfo>) -> (r:
        Enumeration)
        ensures
            r@ == turn_to(
                EnumeratorView {
                    stage: EnumerateStage::Node,
                    selection,
                    names: texts(names@),
                    index: 0,
                    devices: Seq::empty(),
                    resolver: None,
                },
                index as nat,
                infos(devices@),
            ),
            r@ matches EnumerationView::Ask(next, _) ==> next.valid(),
    {
        if index >= names.len() {
            Enumeration::Done(Ok(devices))
        } else {
            let enumerator = Enumerator {
                stage: EnumerateStage::Node,
                selection,
                names,
                index,
                devices,
                resolver: None,
            };
            enumerator.asking()
        }
    }

    /// Goes on after a step of the current node's resolution.
    fn resolved(
        selection: Selection,
        names: Vec<String>,
        index: usize,
        devices: Vec<DeviceInfo>,
        resolution: Resolution,
    ) -> (r: Enumeration)
        requires
            index < names@.len(),
            resolution@ matches ResolutionView::Ask(next, _) ==> next.valid(),
        ensures
            r@ == after_resolution(
                EnumeratorView {
                    stage: EnumerateStage::Node,
                    selection,
                    names: texts(names@),
                    index: index as nat,
                    devices: infos(devices@),
                    resolver: None,
                },
                resolution@,
            ),
            r@ matches EnumerationView::Ask(next, _) ==> next.valid(),
    {
        let count = names.len();
        assert(index < count);
        match resolution {
            Resolution::Ask(next, _) => {
                let enumerator = Enumerator {
                    stage: EnumerateStage::Resolving,
                    selection,
                    names,
                    index,
                    devices,
                    resolver: Some(next),
                };
                enumerator.asking()
            },
            Resolution::Done(Ok(info)) => {
                let mut devices = devices;
                if selection.accepts(&info) {
                    let ghost before = infos(devices@);
                    devices.push(info);
                    assert(infos(devices@) =~= before.push(info@));
                }
                Enumerator::turn(selection, names, index + 1, devices)
            },
            Resolution::Done(Err(_)) => Enumerator::turn(selection, names, index + 1, devices),
        }
    }

    /// Takes the answer to the pending question.
    pub fn answer(self, answer: SysfsAnswer) -> (r: Enumeration)
        requires
            answer@.fits(self@.query()),
        ensures
            r@ == enumerate_answer_spec(self@, answer@),
            r@ matches EnumerationView::Ask(next, _) ==> next.valid(),
    {
        proof {
            use_type_invariant(&self);
        }
        let Enumerator { stage, selection, names, index, devices, resolver } = self;
        let count = names.len();
        assert(stage == EnumerateStage::Node ==> index < count);
        match (stage, answer) {
            (EnumerateStage::ClassDir, SysfsAnswer::Exists(found)) => {
                if found {
                    let enumerator = Enumerator {
                        stage: EnumerateStage::Listing,
                        selection,
                        names,
                        index,
                        devices,
                        resolver,
                    };
                    enumerator.asking()
                } else {
                    Enumeration::Done(
                        Err(
                            Error::NotSupported(
                                String::from_str("hidraw not available on this system"),
                            ),
                        ),
                    )
                }
            },
            (EnumerateStage::Listing, SysfsAnswer::Entries(listing)) => {
                match listing {
                    Err(e) => Enumeration::Done(Err(Error::Io(e))),
                    Ok(found) => {
                        let none: Vec<DeviceInfo> = Vec::new();
                        assert(infos(none@) =~= Seq::<DeviceInfoView>::empty());
                        Enumerator::turn(selection, found, 0, none)
                    },
                }
            },
            (EnumerateStage::Node, SysfsAnswer::Exists(found)) => {
                if found {
                    let node = join("/dev", names[index].as_str());
                    let resolution = Resolver::begin(node.as_str());
                    Enumerator::resolved(selection, names, index, devices, resolution)
                } else {
                    Enumerator::turn(selection, names, index + 1, devices)
                }
            },
            (EnumerateStage::Resolving, answer) => {
                match resolver {
                    Some(current) => {
                        let resolution = current.answer(answer);
                        Enumerator::resolved(selection, names, index, devices, resolution)
                    },
                    None => unreached(),
                }
            },
            _ => unreached(),
        }
    }
}

/// Enumerate all HID devices on the system: begins the enumeration.
pub fn enumerate() -> (r: Enumeration)
    ensures
        r@ == start_spec(Selection::All),
        r@ matches EnumerationView::Ask(next, _) ==> next.valid(),
{
    Enumerator::start(Selection::All)
}

/// Find devices matching vendor and product ID: begins the enumeration
/// that keeps the matching identities.
pub fn find_devices(vendor_id: u16, product_id: u16) -> (r: Enumeration)
    ensures
        r@ == start_spec(Selection::Matching { vendor_id, product_id }),
        r@ matches EnumerationView::Ask(next, _) ==> next.valid(),
{
    Enumerator::start(Selection::Matching { vendor_id, product_id })
}

/// Get device information from a hidraw device path: begins the
/// resolution.
pub fn get_device_info(device_path: &str) -> (r: Resolution)
    ensures
        r@ == begin_spec(device_path@),
        r@ matches ResolutionView::Ask(next, _) ==> next.valid(),
{
    Resolver::begin(device_path)
}

} // verus!
