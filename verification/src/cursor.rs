//! The cursor resource lifecycle: loading a cursor image, substituting it
//! into the system-wide cursor table for one cursor kind, and reverting that
//! slot to the image it held before.
//!
//! The operating system owns the real cursor table and the real image
//! resources. This module models that external state with plain values: an
//! image resource is a [`Cursor`] holding the OS handle and an identifier for
//! the image content it shows, and one slot of the table is a [`SystemSlot`],
//! a capability value standing for exclusive access to that slot. The
//! surrounding program performs the platform calls and feeds their results
//! (handles and error codes) in; whenever the table itself must change, the
//! functions here return a [`SetCursorAction`] describing exactly which
//! handle to write into which slot, so every table write the program performs
//! is one that a verified function decided.

use vstd::prelude::*;

verus! {

/// Error code the operating system reports when a file to be loaded does not
/// exist.
pub const ERROR_FILE_NOT_FOUND: u32 = 2;

/// System identifier of the standard-arrow-with-hourglass cursor slot.
pub const OCR_APPSTARTING: u32 = 32650;

/// System identifier of the normal pointer cursor slot.
pub const OCR_NORMAL: u32 = 32512;

/// System identifier of the crosshair cursor slot.
pub const OCR_CROSS: u32 = 32515;

/// System identifier of the hand cursor slot.
pub const OCR_HAND: u32 = 32649;

/// System identifier of the I-beam (text entry) cursor slot.
pub const OCR_IBEAM: u32 = 32513;

/// System identifier of the slashed-circle (not allowed) cursor slot.
pub const OCR_NO: u32 = 32648;

/// System identifier of the four-pointed-arrow cursor slot.
pub const OCR_SIZEALL: u32 = 32646;

/// System identifier of the northeast/southwest resize cursor slot.
pub const OCR_SIZENESW: u32 = 32643;

/// System identifier of the north/south resize cursor slot.
pub const OCR_SIZENS: u32 = 32645;

/// System identifier of the northwest/southeast resize cursor slot.
pub const OCR_SIZENWSE: u32 = 32642;

/// System identifier of the west/east resize cursor slot.
pub const OCR_SIZEWE: u32 = 32644;

/// System identifier of the vertical-arrow cursor slot.
pub const OCR_UP: u32 = 32516;

/// System identifier of the hourglass cursor slot.
pub const OCR_WAIT: u32 = 32514;

/// A system pointer role. Each kind is bound to one fixed numeric identifier
/// defined by the host operating system, and to one human-readable name.
#[derive(Clone, Copy, Debug, PartialEq, Eq, Structural)]
pub enum CursorKind {
    /// Standard arrow and small hourglass
    AppStarting,
    /// The normal pointer
    Normal,
    /// Crosshair
    Crosshair,
    /// Hand
    Hand,
    /// I-Beam
    Ibeam,
    /// Slashed circle
    No,
    /// Four-pointed arrow pointing north, south, east, and west
    SizeAll,
    /// Double-pointed arrow pointing northeast and southwest
    SizeNeSw,
    /// Double-pointed arrow pointing north and south
    SizeNs,
    /// Double-pointed arrow pointing northwest and southeast
    SizeNwSe,
    /// Double-pointed arrow pointing west and east
    SizeWe,
    /// Vertical arrow
    Up,
    /// Hourglass
    Wait,
}

impl CursorKind {
    /// The numeric identifier the operating system assigns to this kind.
    pub open spec fn id_spec(self) -> u32 {
        match self {
            CursorKind::AppStarting => OCR_APPSTARTING,
            CursorKind::Normal => OCR_NORMAL,
            CursorKind::Crosshair => OCR_CROSS,
            CursorKind::Hand => OCR_HAND,
            CursorKind::Ibeam => OCR_IBEAM,
            CursorKind::No => OCR_NO,
            CursorKind::SizeAll => OCR_SIZEALL,
            CursorKind::SizeNeSw => OCR_SIZENESW,
            CursorKind::SizeNs => OCR_SIZENS,
            CursorKind::SizeNwSe => OCR_SIZENWSE,
            CursorKind::SizeWe => OCR_SIZEWE,
            CursorKind::Up => OCR_UP,
            CursorKind::Wait => OCR_WAIT,
        }
    }

    /// The human-readable name of this kind, for diagnostics.
    pub open spec fn name_spec(self) -> Seq<char> {
        match self {
            CursorKind::AppStarting => "AppStarting"@,
            CursorKind::Normal => "Normal"@,
            CursorKind::Crosshair => "Crosshair"@,
            CursorKind::Hand => "Hand"@,
            CursorKind::Ibeam => "IBeam"@,
            CursorKind::No => "No"@,
            CursorKind::SizeAll => "SizeAll"@,
            CursorKind::SizeNeSw => "SizeNeSw"@,
            CursorKind::SizeNs => "SizeNS"@,
            CursorKind::SizeNwSe => "SizeNWSE"@,
            CursorKind::SizeWe => "SizeWE"@,
            CursorKind::Up => "Up"@,
            CursorKind::Wait => "Wait"@,
        }
    }

    /// The numeric identifier of this kind in the system cursor table.
    pub fn as_id(self) -> (id: u32)
        ensures
            id == self.id_spec(),
    {
        match self {
            CursorKind::AppStarting => OCR_APPSTARTING,
            CursorKind::Normal => OCR_NORMAL,
            CursorKind::Crosshair => OCR_CROSS,
            CursorKind::Hand => OCR_HAND,
            CursorKind::Ibeam => OCR_IBEAM,
            CursorKind::No => OCR_NO,
            CursorKind::SizeAll => OCR_SIZEALL,
            CursorKind::SizeNeSw => OCR_SIZENESW,
            CursorKind::SizeNs => OCR_SIZENS,
            CursorKind::SizeNwSe => OCR_SIZENWSE,
            CursorKind::SizeWe => OCR_SIZEWE,
            CursorKind::Up => OCR_UP,
            CursorKind::Wait => OCR_WAIT,
        }
    }

    /// The human-readable name of this kind.
    pub fn as_str(self) -> (s: &'static str)
        ensures
            s@ == self.name_spec(),
    {
        match self {
            CursorKind::AppStarting => "AppStarting",
            CursorKind::Normal => "Normal",
            CursorKind::Crosshair => "Crosshair",
            CursorKind::Hand => "Hand",
            CursorKind::Ibeam => "IBeam",
            CursorKind::No => "No",
            CursorKind::SizeAll => "SizeAll",
            CursorKind::SizeNeSw => "SizeNeSw",
            CursorKind::SizeNs => "SizeNS",
            CursorKind::SizeNwSe => "SizeNWSE",
            CursorKind::SizeWe => "SizeWE",
            CursorKind::Up => "Up",
            CursorKind::Wait => "Wait",
        }
    }
}

/// Why loading a cursor image failed.
#[derive(Clone, Copy, Debug, PartialEq, Eq, Structural)]
pub enum LoadError {
    /// The cursor image file does not exist. Recoverable at the caller's
    /// discretion; it is reported before any override is installed.
    ResourceNotFound,
    /// The operating system reported the contained error code for any other
    /// reason. Not recoverable: the caller should stop loudly rather than
    /// continue in a partially-overridden state.
    PlatformError(u32),
}

/// Mathematical state of one loaded cursor image: the OS handle that owns it
/// and an identifier for the image content it shows. Two resources can show
/// equal content under different handles — a private copy of a system cursor
/// does exactly that.
pub ghost struct CursorModel {
    pub handle: u64,
    pub image: u64,
}

/// One loaded, OS-owned cursor image. The value owns its handle exclusively:
/// it cannot be copied, so the handle can be released, or transferred into an
/// override, at most once.
#[derive(Debug, PartialEq, Eq, Structural)]
pub struct Cursor {
    handle: u64,
    image: u64,
}

/// Mathematical state of one slot of the system cursor table: which cursor
/// kind it serves, and the handle and image content currently installed.
pub ghost struct SlotModel {
    pub kind: CursorKind,
    pub handle: u64,
    pub image: u64,
}

/// Capability for one slot of the system-wide cursor table. Holding the value
/// stands for exclusive access to that slot: every write the program performs
/// on the real table slot goes through a [`SetCursorAction`] computed here,
/// so the model fields track what the slot holds.
#[derive(Debug, PartialEq, Eq, Structural)]
pub struct SystemSlot {
    kind: CursorKind,
    handle: u64,
    image: u64,
}

/// One write of the system cursor table that the surrounding program must
/// perform: install the cursor image owned by `handle` into the slot whose
/// system identifier is `id`.
#[derive(Clone, Copy, Debug, PartialEq, Eq, Structural)]
pub struct SetCursorAction {
    /// Handle of the cursor image to install.
    pub handle: u64,
    /// System identifier of the table slot to write.
    pub id: u32,
}

/// Mathematical state of an active override: the slot kind it occupies, the
/// retained copy of the prior image, and the installed replacement. Both
/// resources stay owned, and so alive, while the override exists.
pub ghost struct OverrideModel {
    pub kind: CursorKind,
    pub prior: CursorModel,
    pub installed: CursorModel,
}

/// An active substitution of one cursor kind in the system table. Owns the
/// replacement it installed and the copy of the prior image needed to revert.
#[derive(Debug)]
pub struct ReplacedCursor {
    cursor: Cursor,
    installed: Cursor,
    kind: CursorKind,
}

impl View for Cursor {
    type V = CursorModel;

    closed spec fn view(&self) -> CursorModel {
        CursorModel { handle: self.handle, image: self.image }
    }
}

impl View for SystemSlot {
    type V = SlotModel;

    closed spec fn view(&self) -> SlotModel {
        SlotModel { kind: self.kind, handle: self.handle, image: self.image }
    }
}

impl View for ReplacedCursor {
    type V = OverrideModel;

    closed spec fn view(&self) -> OverrideModel {
        OverrideModel { kind: self.kind, prior: self.cursor@, installed: self.installed@ }
    }
}

/// Installing `replacement` turns the slot state `pre` into `post`: the slot
/// keeps its kind and now shows the replacement's handle and image.
pub open spec fn install_effect(pre: SlotModel, replacement: CursorModel, post: SlotModel) -> bool {
    &&& post.kind == pre.kind
    &&& post.handle == replacement.handle
    &&& post.image == replacement.image
}

/// Reverting the override `ov` turns the slot state `pre` into `post`: the
/// slot keeps its kind and shows the retained prior copy again. The effect
/// depends only on `ov`, never on `pre`, which is what makes revert
/// idempotent in effect.
pub open spec fn revert_effect(ov: OverrideModel, pre: SlotModel, post: SlotModel) -> bool {
    &&& post.kind == pre.kind
    &&& post.handle == ov.prior.handle
    &&& post.image == ov.prior.image
}

/// The override that installing `replacement` over the slot state `pre`
/// creates, when the retained copy of the prior image got handle
/// `copy_handle`.
pub open spec fn override_for(pre: SlotModel, replacement: CursorModel, copy_handle: u64) -> OverrideModel {
    OverrideModel {
        kind: pre.kind,
        prior: CursorModel { handle: copy_handle, image: pre.image },
        installed: replacement,
    }
}

impl SystemSlot {
    /// Claims the slot of the system cursor table that serves `kind`. The
    /// `handle` and `image` arguments name whatever the slot currently holds;
    /// a caller that cannot observe them may pick any fixed labels, since all
    /// contracts here relate later slot states to these initial values.
    pub fn new(kind: CursorKind, handle: u64, image: u64) -> (s: SystemSlot)
        ensures
            s@ == (SlotModel { kind, handle, image }),
    {
        SystemSlot { kind, handle, image }
    }

    /// The cursor kind this slot serves.
    pub fn kind(&self) -> (k: CursorKind)
        ensures
            k == self@.kind,
    {
        self.kind
    }

    /// The handle of the cursor image the slot currently holds.
    pub fn current_handle(&self) -> (h: u64)
        ensures
            h == self@.handle,
    {
        self.handle
    }

    /// The image content the slot currently shows.
    pub fn current_image(&self) -> (i: u64)
        ensures
            i == self@.image,
    {
        self.image
    }
}

impl Cursor {
    /// Classifies the outcome of the platform's attempt to load a cursor
    /// image from a file. `handle` is the handle the platform returned, with
    /// zero standing for a failed load, and `error_code` is the error it
    /// reported. A missing file is the one recoverable failure; every other
    /// failure is fatal.
    pub fn from_file(handle: u64, error_code: u32) -> (r: Result<Cursor, LoadError>)
        ensures
            handle != 0 ==> (r matches Ok(c) && c@ == (CursorModel { handle, image: handle })),
            handle == 0 && error_code == ERROR_FILE_NOT_FOUND ==> r == Err::<Cursor, LoadError>(
                LoadError::ResourceNotFound,
            ),
            handle == 0 && error_code != ERROR_FILE_NOT_FOUND ==> r == Err::<Cursor, LoadError>(
                LoadError::PlatformError(error_code),
            ),
    {
        if handle != 0 {
            Ok(Cursor { handle, image: handle })
        } else if error_code == ERROR_FILE_NOT_FOUND {
            Err(LoadError::ResourceNotFound)
        } else {
            Err(LoadError::PlatformError(error_code))
        }
    }

    /// Takes ownership of the private copy the platform made of the image
    /// currently installed in `slot`; `copy_handle` is the handle of that
    /// copy. The copy shows the slot's current image content under its own
    /// handle, so it survives later writes of the slot.
    pub fn load_system(slot: &SystemSlot, copy_handle: u64) -> (c: Cursor)
        ensures
            c@ == (CursorModel { handle: copy_handle, image: slot@.image }),
    {
        Cursor { handle: copy_handle, image: slot.image }
    }

    /// Installs this cursor into `slot`, first retaining a copy of the prior
    /// image (whose platform-made copy has handle `copy_handle`) so the slot
    /// can be reverted later. Returns the override, which owns both the
    /// retained prior copy and the installed replacement, together with the
    /// one table write the surrounding program must perform.
    pub fn replace_system(self, slot: &mut SystemSlot, copy_handle: u64) -> (r: (
        ReplacedCursor,
        SetCursorAction,
    ))
        ensures
            install_effect(old(slot)@, self@, final(slot)@),
            r.0@ == override_for(old(slot)@, self@, copy_handle),
            r.1 == (SetCursorAction { handle: self@.handle, id: old(slot)@.kind.id_spec() }),
    {
        let prior = Self::load_system(slot, copy_handle);
        let action = SetCursorAction { handle: self.handle, id: slot.kind.as_id() };
        slot.handle = self.handle;
        slot.image = self.image;
        let kind = slot.kind;
        (ReplacedCursor { cursor: prior, installed: self, kind }, action)
    }

    /// Gives up ownership of the resource and hands back the handle so the
    /// surrounding program can release it. Consuming the value is what makes
    /// a double release impossible: the handle comes out exactly once.
    pub fn release(self) -> (h: u64)
        ensures
            h == self@.handle,
    {
        self.handle
    }
}

impl ReplacedCursor {
    /// Restores the slot to the retained prior image. Safe to call any number
    /// of times: the resulting slot state depends only on the override, so
    /// every call after the first reasserts the same prior handle and changes
    /// nothing observable. Returns the table write the surrounding program
    /// must perform.
    pub fn revert(&self, slot: &mut SystemSlot) -> (a: SetCursorAction)
        requires
            old(slot)@.kind == self@.kind,
        ensures
            revert_effect(self@, old(slot)@, final(slot)@),
            a == (SetCursorAction { handle: self@.prior.handle, id: self@.kind.id_spec() }),
    {
        let a = SetCursorAction { handle: self.cursor.handle, id: self.kind.as_id() };
        slot.handle = self.cursor.handle;
        slot.image = self.cursor.image;
        a
    }

    /// The cursor kind whose slot this override occupies.
    pub fn kind(&self) -> (k: CursorKind)
        ensures
            k == self@.kind,
    {
        self.kind
    }
}

/// Installing an override and then reverting it restores the slot to an
/// image equal to the one it held immediately before installation — for
/// every cursor kind, since the kind only rides along in the slot state.
pub proof fn lemma_install_then_revert_restores(
    pre: SlotModel,
    replacement: CursorModel,
    copy_handle: u64,
    mid: SlotModel,
    post: SlotModel,
)
    requires
        install_effect(pre, replacement, mid),
        revert_effect(override_for(pre, replacement, copy_handle), mid, post),
    ensures
        post.kind == pre.kind,
        post.image == pre.image,
        post.handle == copy_handle,
{
}

/// Reverting twice in a row is safe and leaves the slot in exactly the state
/// that reverting once leaves it in.
pub proof fn lemma_revert_idempotent(
    ov: OverrideModel,
    pre: SlotModel,
    once: SlotModel,
    twice: SlotModel,
)
    requires
        revert_effect(ov, pre, once),
        revert_effect(ov, once, twice),
    ensures
        twice == once,
{
}

} // verus!
