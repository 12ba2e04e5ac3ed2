use miniclock::ssd1322::config::DisplayEnhancementA;
use miniclock::ssd1322::config::DisplayEnhancementB;
use miniclock::ssd1322::config::DisplayMode;
use miniclock::ssd1322::config::Function;
use miniclock::ssd1322::config::GPIOState;
use miniclock::ssd1322::config::LowGSQuality;
use miniclock::ssd1322::config::Remap;
use miniclock::ssd1322::config::ScanDirection;
use miniclock::ssd1322::config::WriteDirection;
use miniclock::ssd1322::config::VSL;
use miniclock::ssd1322::interface::Interface;
use miniclock::ssd1322::interface::Repeat;
use miniclock::ssd1322::panel::init_oled;
use miniclock::ssd1322::Error;
use miniclock::ssd1322::SSD1322;

/// A bus that keeps what it is given and fails on the command number
/// `fail_at`, counted from zero, and on every one after it.
struct Recorder {
    frames: Vec<(u8, Vec<u8>)>,
    fail_at: Option<usize>,
}

impl Recorder {
    fn new() -> Self {
        Recorder { frames: Vec::new(), fail_at: None }
    }

    fn failing_at(n: usize) -> Self {
        Recorder { frames: Vec::new(), fail_at: Some(n) }
    }

    fn record(&mut self, cmd: u8, data: Vec<u8>) -> Result<(), u32> {
        let n = self.frames.len();
        self.frames.push((cmd, data));
        match self.fail_at {
            Some(k) if n >= k => Err(n as u32),
            _ => Ok(()),
        }
    }
}

impl Interface for Recorder {
    type Error = u32;

    fn cmd_0(&mut self, cmd: u8) -> Result<(), u32> {
        self.record(cmd, vec![])
    }

    fn cmd_1(&mut self, cmd: u8, a: u8) -> Result<(), u32> {
        self.record(cmd, vec![a])
    }

    fn cmd_2(&mut self, cmd: u8, a: u8, b: u8) -> Result<(), u32> {
        self.record(cmd, vec![a, b])
    }

    fn cmd_n(&mut self, cmd: u8, data: &[u8]) -> Result<(), u32> {
        self.record(cmd, data.to_vec())
    }

    fn cmd_n_iter(&mut self, cmd: u8, data: Repeat) -> Result<usize, u32> {
        self.record(cmd, vec![data.byte; data.count]).map(|_| data.count)
    }
}

fn driver() -> SSD1322<Recorder> {
    SSD1322::new(Recorder::new())
}

fn sent(drv: SSD1322<Recorder>) -> Vec<(u8, Vec<u8>)> {
    drv.release().frames
}

fn refused(r: Result<(), Error<u32>>) -> bool {
    matches!(r, Err(Error::Request))
}

fn panel_remap() -> Remap {
    Remap {
        address_increment: WriteDirection::Horizontal,
        column_addr_remap: false,
        nibble_remap: true,
        scan_direction: ScanDirection::Backward,
        com_split_odd_even: false,
        dual_com_mode: true,
    }
}

#[test]
fn column_addresses_in_range_are_sent() {
    let mut drv = driver();
    assert!(drv.set_column_addresses(28, 91).is_ok());
    assert!(drv.set_column_addresses(116, 0).is_ok());
    assert_eq!(sent(drv), vec![(0x15, vec![28, 91]), (0x15, vec![116, 0])]);
}

#[test]
fn column_address_out_of_range_never_reaches_the_bus() {
    let mut drv = driver();
    assert!(refused(drv.set_column_addresses(117, 3)));
    assert!(refused(drv.set_column_addresses(3, 117)));
    assert!(refused(drv.set_column_addresses(255, 255)));
    assert!(sent(drv).is_empty());
}

#[test]
fn row_addresses_go_up_to_127() {
    let mut drv = driver();
    assert!(drv.set_row_addresses(0, 127).is_ok());
    assert!(refused(drv.set_row_addresses(128, 0)));
    assert!(refused(drv.set_row_addresses(0, 128)));
    assert_eq!(sent(drv), vec![(0x75, vec![0, 127])]);
}

#[test]
fn commands_without_arguments() {
    let mut drv = driver();
    assert!(drv.enable_grayscale_table().is_ok());
    assert!(drv.exit_partial_display().is_ok());
    assert!(drv.set_default_grayscale_table().is_ok());
    assert_eq!(sent(drv), vec![(0x00, vec![]), (0xa9, vec![]), (0xb9, vec![])]);
}

#[test]
fn gdram_write_sends_the_bytes_as_they_are() {
    let mut drv = driver();
    assert!(drv.write_gdram(&[1, 2, 3]).is_ok());
    assert!(drv.write_gdram(&[]).is_ok());
    assert_eq!(sent(drv), vec![(0x5c, vec![1, 2, 3]), (0x5c, vec![])]);
}

#[test]
fn gdram_run_sends_count_equal_bytes() {
    let mut drv = driver();
    assert!(drv.write_gdram_iter(Repeat::new(0xab, 5)).is_ok());
    assert!(drv.write_gdram_iter(Repeat::new(0x00, 0)).is_ok());
    assert_eq!(sent(drv), vec![(0x5c, vec![0xab; 5]), (0x5c, vec![])]);
}

#[test]
fn remap_packs_its_flags() {
    let mut drv = driver();
    assert!(drv.set_remap_config(panel_remap()).is_ok());
    assert!(drv
        .set_remap_config(Remap {
            address_increment: WriteDirection::Vertical,
            column_addr_remap: true,
            nibble_remap: true,
            scan_direction: ScanDirection::Backward,
            com_split_odd_even: true,
            dual_com_mode: false,
        })
        .is_ok());
    assert!(drv
        .set_remap_config(Remap {
            address_increment: WriteDirection::Horizontal,
            column_addr_remap: false,
            nibble_remap: false,
            scan_direction: ScanDirection::Forward,
            com_split_odd_even: false,
            dual_com_mode: false,
        })
        .is_ok());
    assert_eq!(
        sent(drv),
        vec![(0xa0, vec![0x14, 0x11]), (0xa0, vec![0x37, 0x01]), (0xa0, vec![0x00, 0x01])]
    );
}

#[test]
fn remap_args_one_flag_at_a_time() {
    let base = || Remap {
        address_increment: WriteDirection::Horizontal,
        column_addr_remap: false,
        nibble_remap: false,
        scan_direction: ScanDirection::Forward,
        com_split_odd_even: false,
        dual_com_mode: false,
    };
    let mut r = base();
    r.address_increment = WriteDirection::Vertical;
    assert_eq!(r.protocol_args(), (0x01, 0x01));
    let mut r = base();
    r.column_addr_remap = true;
    assert_eq!(r.protocol_args(), (0x02, 0x01));
    let mut r = base();
    r.nibble_remap = true;
    assert_eq!(r.protocol_args(), (0x04, 0x01));
    let mut r = base();
    r.scan_direction = ScanDirection::Backward;
    assert_eq!(r.protocol_args(), (0x10, 0x01));
    let mut r = base();
    r.com_split_odd_even = true;
    assert_eq!(r.protocol_args(), (0x20, 0x01));
    let mut r = base();
    r.dual_com_mode = true;
    assert_eq!(r.protocol_args(), (0x00, 0x11));
}

#[test]
fn remap_refuses_split_with_dual_com() {
    let mut drv = driver();
    let mut cfg = panel_remap();
    cfg.com_split_odd_even = true;
    assert!(refused(drv.set_remap_config(cfg)));
    assert!(sent(drv).is_empty());
}

#[test]
fn start_line_and_offset_go_up_to_127() {
    let mut drv = driver();
    assert!(drv.set_display_start_line(64).is_ok());
    assert!(drv.set_display_offset(127).is_ok());
    assert!(refused(drv.set_display_start_line(128)));
    assert!(refused(drv.set_display_offset(128)));
    assert_eq!(sent(drv), vec![(0xa1, vec![64]), (0xa2, vec![127])]);
}

#[test]
fn display_modes_are_four_opcodes() {
    let mut drv = driver();
    assert!(drv.set_display_mode(DisplayMode::AllOff).is_ok());
    assert!(drv.set_display_mode(DisplayMode::AllOn).is_ok());
    assert!(drv.set_display_mode(DisplayMode::Normal).is_ok());
    assert!(drv.set_display_mode(DisplayMode::Inverted).is_ok());
    assert_eq!(
        sent(drv),
        vec![(0xa4, vec![]), (0xa5, vec![]), (0xa6, vec![]), (0xa7, vec![])]
    );
}

#[test]
fn partial_display_needs_ordered_rows() {
    let mut drv = driver();
    assert!(drv.enable_partial_display(10, 20).is_ok());
    assert!(drv.enable_partial_display(5, 5).is_ok());
    assert!(refused(drv.enable_partial_display(20, 10)));
    assert!(refused(drv.enable_partial_display(0, 128)));
    assert!(refused(drv.enable_partial_display(128, 129)));
    assert_eq!(sent(drv), vec![(0xa8, vec![10, 20]), (0xa8, vec![5, 5])]);
}

#[test]
fn function_selection_and_sleep() {
    let mut drv = driver();
    assert!(drv.select_functions(Function { internal_vdd_reg: true }).is_ok());
    assert!(drv.select_functions(Function { internal_vdd_reg: false }).is_ok());
    assert!(drv.set_sleep_mode(true).is_ok());
    assert!(drv.set_sleep_mode(false).is_ok());
    assert_eq!(
        sent(drv),
        vec![(0xab, vec![1]), (0xab, vec![0]), (0xae, vec![]), (0xaf, vec![])]
    );
}

#[test]
fn phase_lengths_pack_into_one_byte() {
    let mut drv = driver();
    assert!(drv.set_phase_lengths(5, 14).is_ok());
    assert!(drv.set_phase_lengths(31, 15).is_ok());
    assert!(drv.set_phase_lengths(5, 3).is_ok());
    assert!(drv.set_phase_lengths(9, 8).is_ok());
    assert_eq!(
        sent(drv),
        vec![(0xb1, vec![0xe2]), (0xb1, vec![0xff]), (0xb1, vec![0x32]), (0xb1, vec![0x84])]
    );
}

#[test]
fn phase_one_is_odd_from_5_to_31() {
    let mut drv = driver();
    for p1 in 0..=255u8 {
        let ok = p1 >= 5 && p1 <= 31 && p1 % 2 == 1;
        assert_eq!(drv.set_phase_lengths(p1, 8).is_ok(), ok);
    }
    assert_eq!(sent(drv).len(), 14);
}

#[test]
fn phase_two_is_from_3_to_15() {
    let mut drv = driver();
    for p2 in 0..=255u8 {
        let r = drv.set_phase_lengths(7, p2);
        if p2 >= 3 && p2 <= 15 {
            assert!(r.is_ok());
        } else {
            assert!(refused(r));
        }
    }
    assert_eq!(sent(drv).len(), 13);
}

#[test]
fn clock_packs_frequency_over_divider() {
    let mut drv = driver();
    assert!(drv.set_clock(9, 1).is_ok());
    assert!(drv.set_clock(15, 10).is_ok());
    assert!(drv.set_clock(0, 0).is_ok());
    assert!(refused(drv.set_clock(16, 0)));
    assert!(refused(drv.set_clock(0, 11)));
    assert_eq!(sent(drv), vec![(0xb3, vec![0x91]), (0xb3, vec![0xfa]), (0xb3, vec![0x00])]);
}

#[test]
fn display_enhancements() {
    let mut drv = driver();
    assert!(drv
        .set_display_enhancement_a(DisplayEnhancementA {
            vsl: VSL::External,
            low_gs_quality: LowGSQuality::Enhanced,
        })
        .is_ok());
    assert!(drv
        .set_display_enhancement_a(DisplayEnhancementA {
            vsl: VSL::Internal,
            low_gs_quality: LowGSQuality::Normal,
        })
        .is_ok());
    assert!(drv.set_display_enhancement_b(DisplayEnhancementB::Normal).is_ok());
    assert!(drv.set_display_enhancement_b(DisplayEnhancementB::Reserved).is_ok());
    assert_eq!(
        sent(drv),
        vec![
            (0xb4, vec![0xa0, 0xfd]),
            (0xb4, vec![0xa2, 0xb5]),
            (0xd1, vec![0xa2, 0x20]),
            (0xd1, vec![0x82, 0x20]),
        ]
    );
}

#[test]
fn gpio_states_take_two_bits_each() {
    assert_eq!(GPIOState::HiZ(false).protocol_arg(), 0);
    assert_eq!(GPIOState::HiZ(true).protocol_arg(), 1);
    assert_eq!(GPIOState::Output(false).protocol_arg(), 2);
    assert_eq!(GPIOState::Output(true).protocol_arg(), 3);
    let mut drv = driver();
    assert!(drv.set_gpio_states(GPIOState::HiZ(false), GPIOState::HiZ(false)).is_ok());
    assert!(drv.set_gpio_states(GPIOState::Output(true), GPIOState::HiZ(true)).is_ok());
    assert!(drv.set_gpio_states(GPIOState::HiZ(true), GPIOState::Output(false)).is_ok());
    assert!(drv.set_gpio_states(GPIOState::Output(true), GPIOState::Output(true)).is_ok());
    assert_eq!(
        sent(drv),
        vec![(0xb5, vec![0x00]), (0xb5, vec![0x07]), (0xb5, vec![0x09]), (0xb5, vec![0x0f])]
    );
}

#[test]
fn small_ranges_are_checked() {
    let mut drv = driver();
    assert!(drv.set_second_precharge_period(15).is_ok());
    assert!(refused(drv.set_second_precharge_period(16)));
    assert!(drv.set_precharge_voltage_level(31).is_ok());
    assert!(refused(drv.set_precharge_voltage_level(32)));
    assert!(drv.set_deselect_voltage_level(7).is_ok());
    assert!(refused(drv.set_deselect_voltage_level(8)));
    assert!(drv.set_master_contrast_current_control(15).is_ok());
    assert!(refused(drv.set_master_contrast_current_control(16)));
    assert!(drv.set_contrast_current(255).is_ok());
    assert_eq!(
        sent(drv),
        vec![
            (0xb6, vec![15]),
            (0xbb, vec![31]),
            (0xbe, vec![7]),
            (0xc7, vec![15]),
            (0xc1, vec![255]),
        ]
    );
}

#[test]
fn grayscale_table_is_sent_whole() {
    let levels: [u8; 15] = [12, 24, 36, 48, 60, 72, 84, 96, 108, 120, 132, 144, 156, 168, 180];
    let mut drv = driver();
    assert!(drv.set_grayscale_table(levels).is_ok());
    let zero_first: [u8; 15] = [0, 1, 2, 3, 4, 5, 6, 7, 8, 9, 10, 11, 12, 13, 14];
    assert!(drv.set_grayscale_table(zero_first).is_ok());
    assert_eq!(sent(drv), vec![(0xb8, levels.to_vec()), (0xb8, zero_first.to_vec())]);
}

#[test]
fn grayscale_levels_rise_and_stay_under_181() {
    let good: [u8; 15] = [12, 24, 36, 48, 60, 72, 84, 96, 108, 120, 132, 144, 156, 168, 180];
    let mut drv = driver();
    let mut too_bright = good;
    too_bright[14] = 181;
    assert!(refused(drv.set_grayscale_table(too_bright)));
    let mut first_too_bright = good;
    first_too_bright[0] = 200;
    assert!(refused(drv.set_grayscale_table(first_too_bright)));
    let mut flat = good;
    flat[7] = flat[6];
    assert!(refused(drv.set_grayscale_table(flat)));
    let mut falling = good;
    falling[1] = 11;
    assert!(refused(drv.set_grayscale_table(falling)));
    assert!(refused(drv.set_grayscale_table([0; 15])));
    assert!(sent(drv).is_empty());
}

#[test]
fn mux_ratio_is_sent_less_one() {
    let mut drv = driver();
    assert!(drv.set_mux_ratio(64).is_ok());
    assert!(drv.set_mux_ratio(16).is_ok());
    assert!(drv.set_mux_ratio(128).is_ok());
    assert!(refused(drv.set_mux_ratio(15)));
    assert!(refused(drv.set_mux_ratio(129)));
    assert!(refused(drv.set_mux_ratio(0)));
    assert_eq!(sent(drv), vec![(0xca, vec![63]), (0xca, vec![15]), (0xca, vec![127])]);
}

#[test]
fn command_lock_codes() {
    let mut drv = driver();
    assert!(drv.set_command_lock(true).is_ok());
    assert!(drv.set_command_lock(false).is_ok());
    assert_eq!(sent(drv), vec![(0xfd, vec![0x16]), (0xfd, vec![0x12])]);
}

#[test]
fn bus_failure_comes_back_as_comms() {
    let mut drv = SSD1322::new(Recorder::failing_at(1));
    assert!(drv.set_sleep_mode(true).is_ok());
    assert!(matches!(drv.set_column_addresses(1, 2), Err(Error::Comms(1))));
    assert!(matches!(drv.set_sleep_mode(false), Err(Error::Comms(2))));
    assert!(matches!(drv.write_gdram(&[9]), Err(Error::Comms(3))));
    assert!(matches!(drv.write_gdram_iter(Repeat::new(0, 2)), Err(Error::Comms(4))));
    assert!(matches!(drv.set_grayscale_table([1, 2, 3, 4, 5, 6, 7, 8, 9, 10, 11, 12, 13, 14, 15]), Err(Error::Comms(5))));
    assert_eq!(sent(drv).len(), 6);
}

#[test]
fn refusal_wins_over_a_failing_bus() {
    let mut drv = SSD1322::new(Recorder::failing_at(0));
    assert!(refused(drv.set_mux_ratio(200)));
    assert!(sent(drv).is_empty());
}

#[test]
fn comms_wraps_the_error_of_the_bus() {
    assert!(matches!(Error::comms(7u8), Error::Comms(7)));
}

#[test]
fn release_gives_the_bus_back() {
    let drv = SSD1322::new(Recorder::failing_at(3));
    let bus = drv.release();
    assert_eq!(bus.fail_at, Some(3));
    assert!(bus.frames.is_empty());
}

#[test]
fn panel_bring_up_sends_the_data_sheet_settings() {
    let mut drv = driver();
    assert!(init_oled(&mut drv).is_ok());
    let frames = sent(drv);
    let expected: Vec<(u8, Vec<u8>)> = vec![
        (0xfd, vec![0x12]),
        (0xae, vec![]),
        (0x15, vec![28, 91]),
        (0x75, vec![0, 63]),
        (0xb3, vec![0x91]),
        (0xca, vec![63]),
        (0xa2, vec![0]),
        (0xa1, vec![0]),
        (0xa0, vec![0x14, 0x11]),
        (0xb5, vec![0x00]),
        (0xab, vec![0x01]),
        (0xb4, vec![0xa0, 0xfd]),
        (0xc1, vec![0x9f]),
        (0xc7, vec![0x0f]),
        (0xb9, vec![]),
        (0xb1, vec![0xe2]),
        (0xd1, vec![0xa2, 0x20]),
        (0xbb, vec![0x1d]),
        (0xb6, vec![0x08]),
        (0xbe, vec![0x07]),
        (0xa6, vec![]),
        (0x5c, vec![0; 8192]),
        (0xaf, vec![]),
    ];
    assert_eq!(frames, expected);
}

#[test]
fn panel_bring_up_stops_where_the_bus_fails() {
    for k in [0usize, 1, 8, 21, 22] {
        let mut drv = SSD1322::new(Recorder::failing_at(k));
        assert!(matches!(init_oled(&mut drv), Err(Error::Comms(e)) if e as usize == k));
        assert_eq!(sent(drv).len(), k + 1);
    }
}
