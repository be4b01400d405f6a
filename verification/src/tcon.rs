//! The e-ink panel controller: its system information record, display modes,
//! and the command sequences that the device operations send to the
//! controller library.
use vstd::prelude::*;
use crate::text::push_char;

verus! {

/// Reader display mode.
pub const GI_MIPI_READER: u32 = 0x0;
/// Mixed display mode.
pub const GI_MIPI_MIXED: u32 = 0x01;
/// Browser display mode.
pub const GI_MIPI_BROWSER: u32 = 0x02;
/// Fast reader display mode.
pub const GI_MIPI_FAST_READER: u32 = 0x03;
/// Fast interface display mode.
pub const GI_MIPI_FAST_UI: u32 = 0x04;
/// Sleep mode.
pub const GI_MIPI_SLEEP: u32 = 0x0F;
/// No display mode.
pub const GI_MIPI_NO: u32 = 0x10;
/// Refresh mode.
pub const GI_MIPI_REFRESH: u32 = 0x11;
/// Standby mode.
pub const GI_MIPI_STANDBY: u32 = 0x12;
/// Direct handwriting mode.
pub const GI_MIPI_DIRECT_HANDWRITING: u32 = 0x13;
/// Hybrid display mode.
pub const GI_MIPI_HYBRID: u32 = 0xF0;

/// Image format: 16 grey levels.
pub const EIMC_GRAY16: u32 = 1;
/// Image format: black and white.
pub const EIMC_BLACKWHITE: u32 = 2;
/// Image format: ARGB.
pub const EIMC_ARGB: u32 = 4;
/// No conversion flag.
pub const EIMC_FLAG_NONE: u32 = 0;
/// Dither towards the lower right.
pub const EIMC_DITHER_RIGHTDOWN: u32 = 1;
/// Sharpen with a centre-weighted kernel.
pub const EIMC_ENHANCING_5R1: u32 = 1;
/// Image layout: fill.
pub const EIMC_IMG_FILL: u32 = 0;
/// Image layout: centre.
pub const EIMC_IMG_CENTER: u32 = 1;
/// Image layout: stretch.
pub const EIMC_IMG_STRETCH: u32 = 2;
/// Image layout: tile.
pub const EIMC_IMG_TILE: u32 = 3;

/// The image slot index that means "no cover image shown yet".
pub const NO_IMAGE: u32 = 0xFFFF_FFFF;

/// The controller's system information record.
#[allow(non_snake_case, non_camel_case_types)]
#[derive(Clone, Copy, Debug)]
pub struct TRSP_SYSTEM_INFO_DATA {
    pub uiStandardCmdNo: u32,
    pub uiExtendCmdNo: u32,
    pub uiSignature: u32,
    pub uiVersion: u32,
    pub uiWidth: u32,
    pub uiHeight: u32,
    pub uiUpdateBufBase: u32,
    pub uiImageBufBase: u32,
    pub uiTemperatureNo: u32,
    pub uiModeNo: u32,
    pub uiFrameCount: [u32; 8],
    pub uiNumImgBuf: u32,
    pub uiWbfSFIAddr: u32,
    pub uiwaveforminfo: u32,
    pub uiMultiPanelIndex: u32,
    pub uiTpXMax: u32,
    pub uiTpYMax: u32,
    pub TPVersion: [u8; 4],
    pub ucEPDType: u8,
    pub ucReserved: [u8; 3],
    pub uiReserved: [u32; 2],
}

impl TRSP_SYSTEM_INFO_DATA {
    /// Every field is zero.
    pub open spec fn is_zeroed(&self) -> bool {
        &&& self.uiStandardCmdNo == 0 && self.uiExtendCmdNo == 0 && self.uiSignature == 0
        &&& self.uiVersion == 0 && self.uiWidth == 0 && self.uiHeight == 0
        &&& self.uiUpdateBufBase == 0 && self.uiImageBufBase == 0 && self.uiTemperatureNo == 0
        &&& self.uiModeNo == 0 && self.uiNumImgBuf == 0 && self.uiWbfSFIAddr == 0
        &&& self.uiwaveforminfo == 0 && self.uiMultiPanelIndex == 0 && self.uiTpXMax == 0
        &&& self.uiTpYMax == 0 && self.ucEPDType == 0
        &&& self.uiFrameCount@ == seq![0u32; 8]
        &&& self.TPVersion@ == seq![0u8; 4]
        &&& self.ucReserved@ == seq![0u8; 3]
        &&& self.uiReserved@ == seq![0u32; 2]
    }

    /// A record with every field zero.
    pub fn zeroed() -> (d: TRSP_SYSTEM_INFO_DATA)
        ensures
            d.is_zeroed(),
    {
        let d = TRSP_SYSTEM_INFO_DATA {
            uiStandardCmdNo: 0,
            uiExtendCmdNo: 0,
            uiSignature: 0,
            uiVersion: 0,
            uiWidth: 0,
            uiHeight: 0,
            uiUpdateBufBase: 0,
            uiImageBufBase: 0,
            uiTemperatureNo: 0,
            uiModeNo: 0,
            uiFrameCount: [0, 0, 0, 0, 0, 0, 0, 0],
            uiNumImgBuf: 0,
            uiWbfSFIAddr: 0,
            uiwaveforminfo: 0,
            uiMultiPanelIndex: 0,
            uiTpXMax: 0,
            uiTpYMax: 0,
            TPVersion: [0, 0, 0, 0],
            ucEPDType: 0,
            ucReserved: [0, 0, 0],
            uiReserved: [0, 0],
        };
        assert(d.uiFrameCount@ =~= seq![0u32; 8]);
        assert(d.TPVersion@ =~= seq![0u8; 4]);
        assert(d.ucReserved@ =~= seq![0u8; 3]);
        assert(d.uiReserved@ =~= seq![0u32; 2]);
        d
    }
}

/// One call into the panel controller library.
#[derive(Clone, Copy, PartialEq, Eq, Structural, Debug)]
pub enum TconCommand {
    /// Pause the image loading of the controller.
    StopLoadImg,
    /// Clear the panel.
    CleanUpEInk,
    /// Resume the image loading of the controller.
    RecoveryLoadImg,
    /// Switch the display mode.
    SetMipiMode(u32),
    /// Show the area of the image at `mem_addr`.
    DisplayArea { x: u32, y: u32, w: u32, h: u32, mode: u32, mem_addr: u32, wait_ready: u32 },
    /// Load the prepared cover image into the controller memory at `img_addr`.
    LoadImage { img_addr: u32, x: u32, y: u32, w: u32, h: u32 },
    /// Close the device.
    CloseDevice,
}

/// The three calls that switch the display mode while image loading is paused.
pub open spec fn mode_switch(mode: u32) -> Seq<TconCommand> {
    seq![TconCommand::StopLoadImg, TconCommand::SetMipiMode(mode), TconCommand::RecoveryLoadImg]
}

/// The three calls that clear the panel while image loading is paused.
pub open spec fn refresh_commands() -> Seq<TconCommand> {
    seq![TconCommand::StopLoadImg, TconCommand::CleanUpEInk, TconCommand::RecoveryLoadImg]
}

/// The device path of drive number `drive_no`: `\\.\X:` with X the drive letter.
pub open spec fn device_path_spec(drive_no: u8) -> Seq<char> {
    seq!['\\', '\\', '.', '\\', ((65 + drive_no) as u32) as char, ':']
}

/// The device path of the controller for drive number `drive_no`.
pub fn device_path(drive_no: u8) -> (p: String)
    requires
        drive_no <= 190,
    ensures
        p@ == device_path_spec(drive_no),
{
    let mut p = String::new();
    push_char(&mut p, '\\');
    push_char(&mut p, '\\');
    push_char(&mut p, '.');
    push_char(&mut p, '\\');
    let letter = (0x41u8 + drive_no) as char;
    push_char(&mut p, letter);
    push_char(&mut p, ':');
    assert(p@ =~= device_path_spec(drive_no));
    p
}

/// Why the panel controller could not be used.
#[derive(PartialEq, Eq, Structural, Debug, Clone, Copy)]
pub enum TconError {
    /// The controller device did not open.
    OpenFailed,
}

/// The handle value the controller library returns when the device does not open.
pub const INVALID_HANDLE_VALUE: isize = -1;

/// Whether the controller opened, judged by the handle its library returned.
pub fn check_open(handle: isize) -> (r: Result<(), TconError>)
    ensures
        r == if handle == INVALID_HANDLE_VALUE {
            Err::<(), TconError>(TconError::OpenFailed)
        } else {
            Ok::<(), TconError>(())
        },
{
    if handle == INVALID_HANDLE_VALUE {
        Err(TconError::OpenFailed)
    } else {
        Ok(())
    }
}

/// The steps of storing a new cover image, before the image file is read.
pub struct CoverImagePlan {
    /// The image slot the new image goes to.
    pub slot: u32,
    /// The controller memory address of that slot.
    pub img_addr: u32,
    /// The size the image file is read and scaled to.
    pub width: u32,
    pub height: u32,
    /// The calls made before the image file is read.
    pub before_load: Vec<TconCommand>,
}

/// The panel controller device: where it is, what it reported when opened,
/// and which of its two cover image slots was written last.
pub struct IteTconDevice {
    drive_no: u8,
    dev_path: String,
    is_open: bool,
    img_addrs: [u32; 3],
    sysinfo: TRSP_SYSTEM_INFO_DATA,
    latest_image_idx: u32,
    screen_width: u32,
    screen_height: u32,
}

impl IteTconDevice {
    /// The slot last written, or `NO_IMAGE`.
    pub closed spec fn latest_image(&self) -> u32 {
        self.latest_image_idx
    }

    /// The controller memory addresses of the image slots.
    pub closed spec fn image_addrs(&self) -> Seq<u32> {
        self.img_addrs@
    }

    /// The panel size the images are prepared for.
    pub closed spec fn screen(&self) -> (u32, u32) {
        (self.screen_width, self.screen_height)
    }

    /// Whether the device was opened and not closed since.
    pub closed spec fn opened(&self) -> bool {
        self.is_open
    }

    /// The drive number and path of the device.
    pub closed spec fn location(&self) -> (u8, Seq<char>) {
        (self.drive_no, self.dev_path@)
    }

    /// The system information the controller reported.
    pub closed spec fn system_info(&self) -> TRSP_SYSTEM_INFO_DATA {
        self.sysinfo
    }

    /// Cover images alternate between the first two slots.
    pub open spec fn wf(&self) -> bool {
        self.latest_image() == NO_IMAGE || self.latest_image() < 2
    }

    /// A device before it is opened, prepared for a 2560x1600 panel; making it
    /// cannot fail.
    pub fn new() -> (r: Result<IteTconDevice, TconError>)
        ensures
            r matches Ok(d) && {
                &&& d.wf()
                &&& d.latest_image() == NO_IMAGE
                &&& d.image_addrs() == seq![0u32; 3]
                &&& d.screen() == (2560u32, 1600u32)
                &&& d.opened()
                &&& d.location().0 == 0 && d.location().1.len() == 0
                &&& d.system_info().is_zeroed()
            },
    {
        Ok(
            IteTconDevice {
                drive_no: 0,
                dev_path: String::new(),
                is_open: true,
                img_addrs: [0, 0, 0],
                sysinfo: TRSP_SYSTEM_INFO_DATA::zeroed(),
                latest_image_idx: NO_IMAGE,
                screen_width: 2560,
                screen_height: 1600,
            },
        )
    }

    /// Records what the controller reported when it was opened at drive `drive_no`.
    pub fn record_open(
        &mut self,
        drive_no: u8,
        dev_path: String,
        sysinfo: TRSP_SYSTEM_INFO_DATA,
        img_addrs: [u32; 3],
    )
        requires
            old(self).wf(),
        ensures
            final(self).wf(),
            final(self).opened(),
            final(self).location() == (drive_no, dev_path@),
            final(self).system_info() == sysinfo,
            final(self).image_addrs() == img_addrs@,
            final(self).latest_image() == old(self).latest_image(),
            final(self).screen() == old(self).screen(),
    {
        self.drive_no = drive_no;
        self.dev_path = dev_path;
        self.img_addrs = img_addrs;
        self.sysinfo = sysinfo;
        self.is_open = true;
    }

    /// The memory addresses of the image slots.
    pub fn buffer_addrs(&self) -> (a: [u32; 3])
        ensures
            a@ == self.image_addrs(),
    {
        self.img_addrs
    }

    /// Closes the device.
    pub fn close(&mut self) -> (cmds: Vec<TconCommand>)
        requires
            old(self).wf(),
        ensures
            final(self).location() == old(self).location(),
            final(self).system_info() == old(self).system_info(),
            final(self).wf(),
            !final(self).opened(),
            cmds@ == seq![TconCommand::CloseDevice],
            final(self).latest_image() == old(self).latest_image(),
            final(self).image_addrs() == old(self).image_addrs(),
            final(self).screen() == old(self).screen(),
    {
        self.is_open = false;
        vec![TconCommand::CloseDevice]
    }

    /// Clears the panel.
    pub fn refresh(&self) -> (cmds: Vec<TconCommand>)
        ensures
            cmds@ == refresh_commands(),
    {
        let cmds = vec![
            TconCommand::StopLoadImg,
            TconCommand::CleanUpEInk,
            TconCommand::RecoveryLoadImg,
        ];
        assert(cmds@ =~= refresh_commands());
        cmds
    }

    fn mode_commands(mode: u32) -> (cmds: Vec<TconCommand>)
        ensures
            cmds@ == mode_switch(mode),
    {
        let cmds = vec![
            TconCommand::StopLoadImg,
            TconCommand::SetMipiMode(mode),
            TconCommand::RecoveryLoadImg,
        ];
        assert(cmds@ =~= mode_switch(mode));
        cmds
    }

    /// Switches to the fast reader mode.
    pub fn set_speed_mode(&self) -> (cmds: Vec<TconCommand>)
        ensures
            cmds@ == mode_switch(GI_MIPI_FAST_READER),
    {
        Self::mode_commands(GI_MIPI_FAST_READER)
    }

    /// Switches to the hybrid mode.
    pub fn set_gybrid_mode(&self) -> (cmds: Vec<TconCommand>)
        ensures
            cmds@ == mode_switch(GI_MIPI_HYBRID),
    {
        Self::mode_commands(GI_MIPI_HYBRID)
    }

    /// Switches to the reader mode.
    pub fn set_reader_mode(&self) -> (cmds: Vec<TconCommand>)
        ensures
            cmds@ == mode_switch(GI_MIPI_READER),
    {
        Self::mode_commands(GI_MIPI_READER)
    }

    /// Shows the cover image of the last written slot (the first slot if none
    /// was written): fast reader mode, the whole panel from that slot, then a
    /// refresh.
    pub fn show_cover_image(&mut self) -> (cmds: Vec<TconCommand>)
        requires
            old(self).wf(),
        ensures
            final(self).location() == old(self).location(),
            final(self).system_info() == old(self).system_info(),
            final(self).wf(),
            final(self).latest_image() == if old(self).latest_image() == NO_IMAGE {
                0
            } else {
                old(self).latest_image()
            },
            final(self).image_addrs() == old(self).image_addrs(),
            final(self).screen() == old(self).screen(),
            final(self).opened() == old(self).opened(),
            cmds@ == mode_switch(GI_MIPI_FAST_READER) + seq![
                TconCommand::DisplayArea {
                    x: 0,
                    y: 0,
                    w: old(self).screen().0,
                    h: old(self).screen().1,
                    mode: GI_MIPI_FAST_READER,
                    mem_addr: old(self).image_addrs()[final(self).latest_image() as int],
                    wait_ready: 0,
                },
            ] + refresh_commands(),
    {
        let mut cmds = self.set_speed_mode();
        if self.latest_image_idx == NO_IMAGE {
            self.latest_image_idx = 0;
        }
        let img_addr = self.img_addrs[self.latest_image_idx as usize];
        cmds.push(
            TconCommand::DisplayArea {
                x: 0,
                y: 0,
                w: self.screen_width,
                h: self.screen_height,
                mode: GI_MIPI_FAST_READER,
                mem_addr: img_addr,
                wait_ready: 0,
            },
        );
        let mut tail = self.refresh();
        cmds.append(&mut tail);
        cmds
    }

    /// The slot a new cover image goes to: the first slot if none was
    /// written, otherwise the other of the two slots.
    pub open spec fn next_slot(latest: u32) -> u32 {
        if latest == NO_IMAGE {
            0
        } else {
            ((latest + 1) % 2) as u32
        }
    }

    /// Starts storing a new cover image: picks the next slot (and remembers
    /// it) and switches to the fast reader mode before the file is read.
    pub fn begin_cover_image(&mut self) -> (plan: CoverImagePlan)
        requires
            old(self).wf(),
        ensures
            final(self).location() == old(self).location(),
            final(self).system_info() == old(self).system_info(),
            final(self).wf(),
            plan.slot == Self::next_slot(old(self).latest_image()),
            final(self).latest_image() == plan.slot,
            plan.img_addr == old(self).image_addrs()[plan.slot as int],
            (plan.width, plan.height) == old(self).screen(),
            plan.before_load@ == mode_switch(GI_MIPI_FAST_READER),
            final(self).image_addrs() == old(self).image_addrs(),
            final(self).screen() == old(self).screen(),
            final(self).opened() == old(self).opened(),
    {
        let image_idx: u32 = if self.latest_image_idx == NO_IMAGE {
            0
        } else {
            (self.latest_image_idx + 1) % 2
        };
        self.latest_image_idx = image_idx;
        let img_addr = self.img_addrs[image_idx as usize];
        let before_load = self.set_speed_mode();
        CoverImagePlan {
            slot: image_idx,
            img_addr,
            width: self.screen_width,
            height: self.screen_height,
            before_load,
        }
    }

    /// Finishes storing a cover image that was read and prepared: loads it
    /// into its slot and switches to the hybrid mode.
    pub fn finish_cover_image(&mut self, plan: &CoverImagePlan) -> (cmds: Vec<TconCommand>)
        requires
            old(self).wf(),
            plan.slot < 2,
        ensures
            final(self).location() == old(self).location(),
            final(self).system_info() == old(self).system_info(),
            final(self).wf(),
            final(self).latest_image() == plan.slot,
            final(self).image_addrs() == old(self).image_addrs(),
            final(self).screen() == old(self).screen(),
            final(self).opened() == old(self).opened(),
            cmds@ == seq![
                TconCommand::LoadImage {
                    img_addr: plan.img_addr,
                    x: 0,
                    y: 0,
                    w: old(self).screen().0,
                    h: old(self).screen().1,
                },
            ] + mode_switch(GI_MIPI_HYBRID),
    {
        let mut cmds = vec![
            TconCommand::LoadImage {
                img_addr: plan.img_addr,
                x: 0,
                y: 0,
                w: self.screen_width,
                h: self.screen_height,
            },
        ];
        self.latest_image_idx = plan.slot;
        let mut tail = self.set_gybrid_mode();
        cmds.append(&mut tail);
        cmds
    }
}

/// The slot written last after `k` cover images were stored on a new device.
pub open spec fn slot_after(k: nat) -> u32
    decreases k,
{
    if k == 0 {
        NO_IMAGE
    } else {
        IteTconDevice::next_slot(slot_after((k - 1) as nat))
    }
}

/// On a new device, the `k`-th cover image (counting from one) goes to slot
/// `(k - 1) % 2`: the slots are used 0, 1, 0, 1, ...
pub proof fn law_cover_slots_over_calls(k: nat)
    ensures
        k > 0 ==> slot_after(k) == ((k - 1) % 2) as u32,
    decreases k,
{
    if k == 1 {
        assert(slot_after(0) == NO_IMAGE);
    }
    if k > 1 {
        law_cover_slots_over_calls((k - 1) as nat);
        let prev = slot_after((k - 1) as nat);
        assert(prev == ((k - 2) % 2) as u32);
        assert(prev < 2);
        assert(prev != NO_IMAGE);
        assert(((k - 2) % 2 + 1) % 2 == (k - 1) % 2);
        assert(slot_after(k) == IteTconDevice::next_slot(prev));
    }
}

/// Cover images go to the first slot, then alternate between the two slots;
/// the slot chosen is always one of the two.
pub proof fn law_cover_slots_alternate(latest: u32)
    requires
        latest == NO_IMAGE || latest < 2,
    ensures
        IteTconDevice::next_slot(latest) < 2,
        latest == NO_IMAGE ==> IteTconDevice::next_slot(latest) == 0,
        latest != NO_IMAGE ==> IteTconDevice::next_slot(latest) == 1 - latest,
        IteTconDevice::next_slot(IteTconDevice::next_slot(latest)) != IteTconDevice::next_slot(
            latest,
        ),
{
}

} // verus!
