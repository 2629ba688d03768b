//! Identity resolution: from a device node to its USB identity, by
//! questions to the attribute hierarchy.

use crate::device::{text_of, DeviceInfo, DeviceInfoView};
use crate::error::{Error, ErrorView, IoError, IoErrorView, Result};
use crate::hidraw::interface::{get_interface_number, interface_of};
use crate::hidraw::paths::{file_name, join, join_spec, parent, path_file_name, path_parent};
use crate::hidraw::sysfs::{text_outcome, SysfsAnswer, SysfsAnswerView, SysfsQuery, SysfsQueryView};
use crate::scan::{parse_hex_u16, parse_hex_u16_spec, trim, trim_spec};
use vstd::prelude::*;
use vstd::string::*;

verus! {

/// Most directories that the walk towards the USB device looks at.
pub const MAX_WALK_DEPTH: usize = 10;

/// The directory of the device class.
pub open spec fn class_dir() -> Seq<char> {
    "/sys/class/hidraw"@
}

/// What a resolution waits for.
#[derive(Debug, Clone, Copy, PartialEq, Eq, Structural)]
pub enum ResolveStage {
    /// Whether the node has an entry in the class directory.
    ClassEntry,
    /// The canonical path behind the entry's `device` link.
    DeviceLink,
    /// Whether the current directory holds a vendor id.
    Walk,
    /// The text of the vendor id.
    VendorId,
    /// The text of the product id.
    ProductId,
    /// The manufacturer string.
    Manufacturer,
    /// The product string.
    Product,
    /// The serial number.
    Serial,
}

/// A resolution under way. It always has one question pending.
pub struct Resolver {
    stage: ResolveStage,
    node: String,
    link: String,
    target: String,
    dir: String,
    level: usize,
    vendor_id: u16,
    product_id: u16,
    manufacturer: Option<String>,
    product: Option<String>,
}

/// Mathematical value of a [`Resolver`]: the stage, the path of the node,
/// the path of its `device` link, the canonical path that the link leads
/// to, the directory that the stage looks at, how many levels the walk has
/// climbed, and what has been read so far.
pub struct ResolverView {
    pub stage: ResolveStage,
    pub node: Seq<char>,
    pub link: Seq<char>,
    pub target: Seq<char>,
    pub dir: Seq<char>,
    pub level: nat,
    pub vendor_id: u16,
    pub product_id: u16,
    pub manufacturer: Option<Seq<char>>,
    pub product: Option<Seq<char>>,
}

impl ResolverView {
    /// What holds of every resolution: the walk is within its depth.
    pub open spec fn valid(self) -> bool {
        self.level < MAX_WALK_DEPTH
    }

    /// The question that is pending.
    pub open spec fn query(self) -> SysfsQueryView {
        match self.stage {
            ResolveStage::ClassEntry => SysfsQueryView::Exists(self.dir),
            ResolveStage::DeviceLink => SysfsQueryView::Canonicalize(self.link),
            ResolveStage::Walk => SysfsQueryView::Exists(join_spec(self.dir, "idVendor"@)),
            ResolveStage::VendorId => SysfsQueryView::ReadToString(
                join_spec(self.dir, "idVendor"@),
            ),
            ResolveStage::ProductId => SysfsQueryView::ReadToString(
                join_spec(self.dir, "idProduct"@),
            ),
            ResolveStage::Manufacturer => SysfsQueryView::ReadToString(
                join_spec(self.dir, "manufacturer"@),
            ),
            ResolveStage::Product => SysfsQueryView::ReadToString(join_spec(self.dir, "product"@)),
            ResolveStage::Serial => SysfsQueryView::ReadToString(join_spec(self.dir, "serial"@)),
        }
    }
}

/// How a resolution goes on: with a question, or with its result.
pub enum Resolution {
    Ask(Resolver, SysfsQuery),
    Done(Result<DeviceInfo>),
}

/// Mathematical value of a [`Resolution`].
pub enum ResolutionView {
    Ask(ResolverView, SysfsQueryView),
    Done(core::result::Result<DeviceInfoView, ErrorView>),
}

impl View for Resolver {
    type V = ResolverView;

    closed spec fn view(&self) -> ResolverView {
        ResolverView {
            stage: self.stage,
            node: self.node@,
            link: self.link@,
            target: self.target@,
            dir: self.dir@,
            level: self.level as nat,
            vendor_id: self.vendor_id,
            product_id: self.product_id,
            manufacturer: text_of(self.manufacturer),
            product: text_of(self.product),
        }
    }
}

impl View for Resolution {
    type V = ResolutionView;

    open spec fn view(&self) -> ResolutionView {
        match *self {
            Resolution::Ask(resolver, query) => ResolutionView::Ask(resolver@, query@),
            Resolution::Done(Ok(info)) => ResolutionView::Done(Ok(info@)),
            Resolution::Done(Err(e)) => ResolutionView::Done(Err(e@)),
        }
    }
}

/// Going on from a state: with its pending question.
pub open spec fn ask(state: ResolverView) -> ResolutionView {
    ResolutionView::Ask(state, state.query())
}

/// The failure of a walk that found no USB device.
pub open spec fn usb_not_found() -> ResolutionView {
    ResolutionView::Done(Err(ErrorView::Parse("Could not find USB device in sysfs"@)))
}

/// A hexadecimal attribute from what reading its file gave: the trimmed
/// text must be a hexadecimal `u16`; a file that could not be read and a
/// text of another form are parse errors.
pub open spec fn hex_attr_spec(
    path: Seq<char>,
    content: core::result::Result<Seq<char>, IoErrorView>,
) -> core::result::Result<u16, ErrorView> {
    match content {
        Err(_) => Err(ErrorView::Parse("Could not read "@ + path)),
        Ok(text) => match parse_hex_u16_spec(trim_spec(text)) {
            Some(v) => Ok(v),
            None => Err(ErrorView::Parse("Invalid hex value: "@ + trim_spec(text))),
        },
    }
}

/// A string attribute from what reading its file gave: the trimmed text,
/// or nothing where the file could not be read.
pub open spec fn string_attr_spec(content: core::result::Result<Seq<char>, IoErrorView>) -> Option<
    Seq<char>,
> {
    match content {
        Ok(text) => Some(trim_spec(text)),
        Err(_) => None,
    }
}

/// Start of a resolution, given the node's short name: without a name the
/// path is invalid; with one, the first question is whether the class
/// directory has an entry of that name.
pub open spec fn begin_named_spec(node: Seq<char>, name: Option<Seq<char>>) -> ResolutionView {
    match name {
        None => ResolutionView::Done(Err(ErrorView::InvalidPath("Invalid device path"@))),
        Some(n) => ask(
            ResolverView {
                stage: ResolveStage::ClassEntry,
                node,
                link: Seq::empty(),
                target: Seq::empty(),
                dir: join_spec(class_dir(), n),
                level: 0,
                vendor_id: 0,
                product_id: 0,
                manufacturer: None,
                product: None,
            },
        ),
    }
}

/// Start of a resolution of the node at `node`.
pub open spec fn begin_spec(node: Seq<char>) -> ResolutionView {
    begin_named_spec(node, path_file_name(node))
}

/// The walk after a directory without vendor id, given that directory's
/// parent: the parent is looked at next; without a parent the walk fails.
pub open spec fn walk_up_spec(state: ResolverView, up: Option<Seq<char>>) -> ResolutionView {
    match up {
        Some(dir) => ask(ResolverView { dir, level: state.level + 1, ..state }),
        None => usb_not_found(),
    }
}

/// The identity that a resolution ends with, given the serial number. The
/// interface number is the one that the canonical path of the device names,
/// and 0 where it names none.
pub open spec fn identity_spec(state: ResolverView, serial: Option<Seq<char>>) -> DeviceInfoView {
    DeviceInfoView {
        path: state.node,
        vendor_id: state.vendor_id,
        product_id: state.product_id,
        serial_number: serial,
        manufacturer: state.manufacturer,
        product: state.product,
        interface_number: match interface_of(state.target) {
            Some(n) => n,
            None => 0,
        },
    }
}

/// One step of a resolution: what follows from the answer to the pending
/// question.
pub open spec fn answer_spec(state: ResolverView, answer: SysfsAnswerView) -> ResolutionView {
    match state.stage {
        ResolveStage::ClassEntry => if answer->Exists_0 {
            ask(
                ResolverView {
                    stage: ResolveStage::DeviceLink,
                    link: join_spec(state.dir, "device"@),
                    ..state
                },
            )
        } else {
            ResolutionView::Done(
                Err(ErrorView::Parse("sysfs path "@ + state.dir + " does not exist"@)),
            )
        },
        ResolveStage::DeviceLink => match answer->Canonical_0 {
            Err(e) => ResolutionView::Done(
                Err(ErrorView::Parse("Failed to canonicalize path: "@ + e.message)),
            ),
            Ok(dir) => ask(
                ResolverView { stage: ResolveStage::Walk, target: dir, dir, level: 0, ..state },
            ),
        },
        ResolveStage::Walk => if answer->Exists_0 {
            ask(ResolverView { stage: ResolveStage::VendorId, ..state })
        } else if state.level + 1 < MAX_WALK_DEPTH {
            walk_up_spec(state, path_parent(state.dir))
        } else {
            usb_not_found()
        },
        ResolveStage::VendorId => match hex_attr_spec(
            join_spec(state.dir, "idVendor"@),
            answer->Text_0,
        ) {
            Err(e) => ResolutionView::Done(Err(e)),
            Ok(vendor_id) => ask(
                ResolverView { stage: ResolveStage::ProductId, vendor_id, ..state },
            ),
        },
        ResolveStage::ProductId => match hex_attr_spec(
            join_spec(state.dir, "idProduct"@),
            answer->Text_0,
        ) {
            Err(e) => ResolutionView::Done(Err(e)),
            Ok(product_id) => ask(
                ResolverView { stage: ResolveStage::Manufacturer, product_id, ..state },
            ),
        },
        ResolveStage::Manufacturer => ask(
            ResolverView {
                stage: ResolveStage::Product,
                manufacturer: string_attr_spec(answer->Text_0),
                ..state
            },
        ),
        ResolveStage::Product => ask(
            ResolverView {
                stage: ResolveStage::Serial,
                product: string_attr_spec(answer->Text_0),
                ..state
            },
        ),
        ResolveStage::Serial => ResolutionView::Done(
            Ok(identity_spec(state, string_attr_spec(answer->Text_0))),
        ),
    }
}

/// Read a hexadecimal value from the content of a sysfs attribute file
pub fn read_hex_attr(path: &str, content: core::result::Result<String, IoError>) -> (r: Result<
    u16,
>)
    ensures
        match r {
            Ok(v) => hex_attr_spec(path@, text_outcome(content)) == Ok::<u16, ErrorView>(v),
            Err(e) => hex_attr_spec(path@, text_outcome(content)) == Err::<u16, ErrorView>(e@),
        },
{
    match content {
        Err(_) => {
            let mut message = String::from_str("Could not read ");
            message.append(path);
            Err(Error::Parse(message))
        },
        Ok(text) => {
            let trimmed = trim(text.as_str());
            match parse_hex_u16(trimmed.as_str()) {
                Some(v) => Ok(v),
                None => {
                    let mut message = String::from_str("Invalid hex value: ");
                    message.append(trimmed.as_str());
                    Err(Error::Parse(message))
                },
            }
        },
    }
}

/// Read a string value from the content of a sysfs attribute file
pub fn read_string_attr(content: core::result::Result<String, IoError>) -> (r: Result<String>)
    ensures
        match r {
            Ok(s) => string_attr_spec(text_outcome(content)) == Some(s@),
            Err(e) => string_attr_spec(text_outcome(content)) is None && content is Err
                && e@ == ErrorView::Io(content->Err_0@),
        },
{
    match content {
        Ok(text) => Ok(trim(text.as_str())),
        Err(e) => Err(Error::Io(e)),
    }
}

/// The value of a string attribute, if its file could be read.
fn optional_attr(content: core::result::Result<String, IoError>) -> (r: Option<String>)
    ensures
        text_of(r) == string_attr_spec(text_outcome(content)),
{
    match read_string_attr(content) {
        Ok(s) => Some(s),
        Err(_) => None,
    }
}

impl Resolver {
    #[verifier::type_invariant]
    spec fn consistent(self) -> bool {
        self@.valid()
    }

    /// The question that is pending.
    pub fn query(&self) -> (q: SysfsQuery)
        ensures
            q@ == self@.query(),
    {
        match self.stage {
            ResolveStage::ClassEntry => SysfsQuery::Exists(self.dir.clone()),
            ResolveStage::DeviceLink => SysfsQuery::Canonicalize(self.link.clone()),
            ResolveStage::Walk => SysfsQuery::Exists(join(self.dir.as_str(), "idVendor")),
            ResolveStage::VendorId => SysfsQuery::ReadToString(
                join(self.dir.as_str(), "idVendor"),
            ),
            ResolveStage::ProductId => SysfsQuery::ReadToString(
                join(self.dir.as_str(), "idProduct"),
            ),
            ResolveStage::Manufacturer => SysfsQuery::ReadToString(
                join(self.dir.as_str(), "manufacturer"),
            ),
            ResolveStage::Product => SysfsQuery::ReadToString(join(self.dir.as_str(), "product")),
            ResolveStage::Serial => SysfsQuery::ReadToString(join(self.dir.as_str(), "serial")),
        }
    }

    /// Goes on with the pending question of `self`.
    fn asking(self) -> (r: Resolution)
        ensures
            r@ == ask(self@),
    {
        let query = self.query();
        Resolution::Ask(self, query)
    }

    /// Begins the resolution of the device node at `node`.
    pub fn begin(node: &str) -> (r: Resolution)
        ensures
            r@ == begin_spec(node@),
            r@ matches ResolutionView::Ask(next, _) ==> next.valid(),
    {
        let name = file_name(node);
        Resolver::begin_named(node, name)
    }

    /// Begins the resolution of the device node at `node`, whose short name
    /// is `name`.
    pub fn begin_named(node: &str, name: Option<String>) -> (r: Resolution)
        ensures
            r@ == begin_named_spec(node@, text_of(name)),
            r@ matches ResolutionView::Ask(next, _) ==> next.valid(),
    {
        match name {
            None => Resolution::Done(
                Err(Error::InvalidPath(String::from_str("Invalid device path"))),
            ),
            Some(n) => {
                let resolver = Resolver {
                    stage: ResolveStage::ClassEntry,
                    node: String::from_str(node),
                    link: String::new(),
                    target: String::new(),
                    dir: join("/sys/class/hidraw", n.as_str()),
                    level: 0,
                    vendor_id: 0,
                    product_id: 0,
                    manufacturer: None,
                    product: None,
                };
                resolver.asking()
            },
        }
    }

    /// Goes on with the walk after a directory without vendor id, given
    /// that directory's parent.
    pub fn walk_up(self, up: Option<String>) -> (r: Resolution)
        requires
            self@.level + 1 < MAX_WALK_DEPTH,
        ensures
            r@ == walk_up_spec(self@, text_of(up)),
            r@ matches ResolutionView::Ask(next, _) ==> next.valid(),
    {
        match up {
            None => Resolution::Done(
                Err(Error::Parse(String::from_str("Could not find USB device in sysfs"))),
            ),
            Some(dir) => {
                let resolver = Resolver {
                    stage: self.stage,
                    node: self.node,
                    link: self.link,
                    target: self.target,
                    dir,
                    level: self.level + 1,
                    vendor_id: self.vendor_id,
                    product_id: self.product_id,
                    manufacturer: self.manufacturer,
                    product: self.product,
                };
                resolver.asking()
            },
        }
    }

    /// Takes the answer to the pending question.
    pub fn answer(self, answer: SysfsAnswer) -> (r: Resolution)
        requires
            answer@.fits(self@.query()),
        ensures
            r@ == answer_spec(self@, answer@),
            r@ matches ResolutionView::Ask(next, _) ==> next.valid(),
    {
        proof {
            use_type_invariant(&self);
        }
        let Resolver {
            stage,
            node,
            link,
            target,
            dir,
            level,
            vendor_id,
            product_id,
            manufacturer,
            product,
        } = self;
        match (stage, answer) {
            (ResolveStage::ClassEntry, SysfsAnswer::Exists(found)) => {
                if found {
                    let link = join(dir.as_str(), "device");
                    let resolver = Resolver {
                        stage: ResolveStage::DeviceLink,
                        node,
                        link,
                        target,
                        dir,
                        level,
                        vendor_id,
                        product_id,
                        manufacturer,
                        product,
                    };
                    resolver.asking()
                } else {
                    let mut message = String::from_str("sysfs path ");
                    message.append(dir.as_str());
                    message.append(" does not exist");
                    Resolution::Done(Err(Error::Parse(message)))
                }
            },
            (ResolveStage::DeviceLink, SysfsAnswer::Canonical(canonical)) => {
                match canonical {
                    Err(e) => {
                        let mut message = String::from_str("Failed to canonicalize path: ");
                        message.append(e.message.as_str());
                        Resolution::Done(Err(Error::Parse(message)))
                    },
                    Ok(canonical) => {
                        let resolver = Resolver {
                            stage: ResolveStage::Walk,
                            node,
                            link,
                            target: canonical.clone(),
                            dir: canonical,
                            level: 0,
                            vendor_id,
                            product_id,
                            manufacturer,
                            product,
                        };
                        resolver.asking()
                    },
                }
            },
            (ResolveStage::Walk, SysfsAnswer::Exists(found)) => {
                if found {
                    let resolver = Resolver {
                        stage: ResolveStage::VendorId,
                        node,
                        link,
                        target,
                        dir,
                        level,
                        vendor_id,
                        product_id,
                        manufacturer,
                        product,
                    };
                    resolver.asking()
                } else if level + 1 < MAX_WALK_DEPTH {
                    let up = parent(dir.as_str());
                    let resolver = Resolver {
                        stage,
                        node,
                        link,
                        target,
                        dir,
                        level,
                        vendor_id,
                        product_id,
                        manufacturer,
                        product,
                    };
                    resolver.walk_up(up)
                } else {
                    Resolution::Done(
                        Err(Error::Parse(String::from_str("Could not find USB device in sysfs"))),
                    )
                }
            },
            (ResolveStage::VendorId, SysfsAnswer::Text(content)) => {
                let path = join(dir.as_str(), "idVendor");
                match read_hex_attr(path.as_str(), content) {
                    Err(e) => Resolution::Done(Err(e)),
                    Ok(value) => {
                        let resolver = Resolver {
                            stage: ResolveStage::ProductId,
                            node,
                            link,
                            target,
                            dir,
                            level,
                            vendor_id: value,
                            product_id,
                            manufacturer,
                            product,
                        };
                        resolver.asking()
                    },
                }
            },
            (ResolveStage::ProductId, SysfsAnswer::Text(content)) => {
                let path = join(dir.as_str(), "idProduct");
                match read_hex_attr(path.as_str(), content) {
                    Err(e) => Resolution::Done(Err(e)),
                    Ok(value) => {
                        let resolver = Resolver {
                            stage: ResolveStage::Manufacturer,
                            node,
                            link,
                            target,
                            dir,
                            level,
                            vendor_id,
                            product_id: value,
                            manufacturer,
                            product,
                        };
                        resolver.asking()
                    },
                }
            },
            (ResolveStage::Manufacturer, SysfsAnswer::Text(content)) => {
                let resolver = Resolver {
                    stage: ResolveStage::Product,
                    node,
                    link,
                    target,
                    dir,
                    level,
                    vendor_id,
                    product_id,
                    manufacturer: optional_attr(content),
                    product,
                };
                resolver.asking()
            },
            (ResolveStage::Product, SysfsAnswer::Text(content)) => {
                let resolver = Resolver {
                    stage: ResolveStage::Serial,
                    node,
                    link,
                    target,
                    dir,
                    level,
                    vendor_id,
                    product_id,
                    manufacturer,
                    product: optional_attr(content),
                };
                resolver.asking()
            },
            (ResolveStage::Serial, SysfsAnswer::Text(content)) => {
                let serial_number = optional_attr(content);
                let interface_number = match get_interface_number(target.as_str()) {
                    Ok(n) => n,
                    Err(_) => 0,
                };
                Resolution::Done(
                    Ok(
                        DeviceInfo {
                            path: node,
                            vendor_id,
                            product_id,
                            serial_number,
                            manufacturer,
                            product,
                            interface_number,
                        },
                    ),
                )
            },
            _ => unreached(),
        }
    }
}

} // verus!
