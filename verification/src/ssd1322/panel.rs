//! Bringing up the NHD-3.12-25664UCY2 panel, a module of 256×64 pixels
//! behind an SSD1322.

use crate::record::carried_out;
use crate::record::lemma_carried_out_cut;
use crate::record::lemma_carried_out_nothing;
use crate::record::lemma_carried_out_then;
use crate::record::Entry;
use crate::ssd1322::clock;
use crate::ssd1322::column_addresses;
use crate::ssd1322::command_lock;
use crate::ssd1322::config::DisplayEnhancementA;
use crate::ssd1322::config::DisplayEnhancementB;
use crate::ssd1322::config::DisplayMode;
use crate::ssd1322::config::Function;
use crate::ssd1322::config::GPIOState;
use crate::ssd1322::config::LowGSQuality;
use crate::ssd1322::config::Remap;
use crate::ssd1322::config::ScanDirection;
use crate::ssd1322::config::WriteDirection;
use crate::ssd1322::config::VSL;
use crate::ssd1322::contrast_current;
use crate::ssd1322::default_grayscale_table;
use crate::ssd1322::deselect_voltage_level;
use crate::ssd1322::display_enhancement_a;
use crate::ssd1322::display_enhancement_b;
use crate::ssd1322::display_mode;
use crate::ssd1322::display_offset;
use crate::ssd1322::display_start_line;
use crate::ssd1322::functions;
use crate::ssd1322::gpio_states;
use crate::ssd1322::interface::Interface;
use crate::ssd1322::interface::Packet;
use crate::ssd1322::interface::Repeat;
use crate::ssd1322::master_contrast_current_control;
use crate::ssd1322::mux_ratio;
use crate::ssd1322::performed;
use crate::ssd1322::phase_lengths;
use crate::ssd1322::precharge_voltage_level;
use crate::ssd1322::remap_config;
use crate::ssd1322::row_addresses;
use crate::ssd1322::second_precharge_period;
use crate::ssd1322::sleep_mode;
use crate::ssd1322::transmitted;
use crate::ssd1322::write_gdram;
use crate::ssd1322::Error;
use crate::ssd1322::SSD1322;
use vstd::prelude::*;

verus! {

/// How the memory of the controller maps to this panel.
pub open spec fn panel_remap() -> Remap {
    Remap {
        address_increment: WriteDirection::Horizontal,
        column_addr_remap: false,
        nibble_remap: true,
        scan_direction: ScanDirection::Backward,
        com_split_odd_even: false,
        dual_com_mode: true,
    }
}

/// The commands that bring the panel up: with the panel asleep, the
/// settings from its data sheet; then zeros for all of the first frame, so
/// that no noise shows; then the command that wakes the panel.
pub open spec fn init_commands() -> Seq<Option<Packet>> {
    seq![
        command_lock(false),
        sleep_mode(true),
        column_addresses(28, 91),
        row_addresses(0, 63),
        clock(9, 1),
        mux_ratio(64),
        display_offset(0),
        display_start_line(0),
        remap_config(panel_remap()),
        gpio_states(GPIOState::HiZ(false), GPIOState::HiZ(false)),
        functions(Function { internal_vdd_reg: true }),
        display_enhancement_a(
            DisplayEnhancementA { vsl: VSL::External, low_gs_quality: LowGSQuality::Enhanced },
        ),
        contrast_current(0x9f),
        master_contrast_current_control(0x0f),
        default_grayscale_table(),
        phase_lengths(5, 14),
        display_enhancement_b(DisplayEnhancementB::Normal),
        precharge_voltage_level(0x1d),
        second_precharge_period(8),
        deselect_voltage_level(0x07),
        display_mode(DisplayMode::Normal),
        write_gdram((Repeat { byte: 0, count: 8192 })@),
        sleep_mode(false),
    ]
}

/// The packets of `init_commands`.
pub open spec fn init_sequence() -> Seq<Packet> {
    Seq::new(init_commands().len(), |i: int| init_commands()[i]->Some_0)
}

/// One more command of a plan: where the command is accepted and goes
/// through, the plan is carried out one command further; where the
/// transport fails on it, the plan is over.
proof fn lemma_next_command<E>(
    start: Seq<Entry<Packet, E>>,
    mid: Seq<Entry<Packet, E>>,
    end: Seq<Entry<Packet, E>>,
    plan: Seq<Packet>,
    k: int,
    r: Result<(), Error<E>>,
)
    requires
        0 <= k < plan.len(),
        carried_out(start, mid, plan.take(k), None::<E>),
        performed(true, mid, end, Some(seq![plan[k]]), r),
    ensures
        r is Ok ==> carried_out(start, end, plan.take(k + 1), None::<E>),
        r is Err ==> transmitted(start, end, plan, r),
{
    assert(plan.take(k) + seq![plan[k]] =~= plan.take(k + 1));
    assert(plan.take(k + 1) + plan.skip(k + 1) =~= plan);
    match r {
        Ok(_) => {
            lemma_carried_out_then(start, mid, end, plan.take(k), seq![plan[k]], None::<E>);
        },
        Err(Error::Comms(e)) => {
            lemma_carried_out_then(start, mid, end, plan.take(k), seq![plan[k]], Some(e));
            lemma_carried_out_cut(start, end, plan.take(k + 1), plan.skip(k + 1), e);
        },
        Err(_) => {},
    }
}

/// Brings the panel up. Every setting is one that the controller accepts,
/// so only the transport can make this fail.
pub fn init_oled<I: Interface>(drv: &mut SSD1322<I>) -> (r: Result<(), Error<I::Error>>)
    ensures
        r is Err ==> r->Err_0 is Comms,
        I::keeps_record() ==> transmitted(old(drv).sent(), final(drv).sent(), init_sequence(), r),
{
    let ghost start = drv.sent();
    let ghost plan = init_sequence();
    proof {
        lemma_carried_out_nothing::<Packet, I::Error>(start);
        assert(plan.take(0) =~= Seq::<Packet>::empty());
        assert(plan.len() == 23);
    }
    let ghost mid = drv.sent();
    let r = drv.set_command_lock(false);
    proof {
        if I::keeps_record() {
            lemma_next_command(start, mid, drv.sent(), plan, 0, r);
        }
    }
    if r.is_err() {
        return r;
    }
    let ghost mid = drv.sent();
    let r = drv.set_sleep_mode(true);
    proof {
        if I::keeps_record() {
            lemma_next_command(start, mid, drv.sent(), plan, 1, r);
        }
    }
    if r.is_err() {
        return r;
    }
    let ghost mid = drv.sent();
    let r = drv.set_column_addresses(28, 91);
    proof {
        if I::keeps_record() {
            lemma_next_command(start, mid, drv.sent(), plan, 2, r);
        }
    }
    if r.is_err() {
        return r;
    }
    let ghost mid = drv.sent();
    let r = drv.set_row_addresses(0, 63);
    proof {
        if I::keeps_record() {
            lemma_next_command(start, mid, drv.sent(), plan, 3, r);
        }
    }
    if r.is_err() {
        return r;
    }
    let ghost mid = drv.sent();
    let r = drv.set_clock(9, 1);
    proof {
        if I::keeps_record() {
            lemma_next_command(start, mid, drv.sent(), plan, 4, r);
        }
    }
    if r.is_err() {
        return r;
    }
    let ghost mid = drv.sent();
    let r = drv.set_mux_ratio(64);
    proof {
        if I::keeps_record() {
            lemma_next_command(start, mid, drv.sent(), plan, 5, r);
        }
    }
    if r.is_err() {
        return r;
    }
    let ghost mid = drv.sent();
    let r = drv.set_display_offset(0);
    proof {
        if I::keeps_record() {
            lemma_next_command(start, mid, drv.sent(), plan, 6, r);
        }
    }
    if r.is_err() {
        return r;
    }
    let ghost mid = drv.sent();
    let r = drv.set_display_start_line(0);
    proof {
        if I::keeps_record() {
            lemma_next_command(start, mid, drv.sent(), plan, 7, r);
        }
    }
    if r.is_err() {
        return r;
    }
    let ghost mid = drv.sent();
    let r = drv.set_remap_config(
        Remap {
            address_increment: WriteDirection::Horizontal,
            column_addr_remap: false,
            nibble_remap: true,
            scan_direction: ScanDirection::Backward,
            com_split_odd_even: false,
            dual_com_mode: true,
        },
    );
    proof {
        if I::keeps_record() {
            lemma_next_command(start, mid, drv.sent(), plan, 8, r);
        }
    }
    if r.is_err() {
        return r;
    }
    let ghost mid = drv.sent();
    let r = drv.set_gpio_states(GPIOState::HiZ(false), GPIOState::HiZ(false));
    proof {
        if I::keeps_record() {
            lemma_next_command(start, mid, drv.sent(), plan, 9, r);
        }
    }
    if r.is_err() {
        return r;
    }
    let ghost mid = drv.sent();
    let r = drv.select_functions(Function { internal_vdd_reg: true });
    proof {
        if I::keeps_record() {
            lemma_next_command(start, mid, drv.sent(), plan, 10, r);
        }
    }
    if r.is_err() {
        return r;
    }
    let ghost mid = drv.sent();
    let r = drv.set_display_enhancement_a(
        DisplayEnhancementA { vsl: VSL::External, low_gs_quality: LowGSQuality::Enhanced },
    );
    proof {
        if I::keeps_record() {
            lemma_next_command(start, mid, drv.sent(), plan, 11, r);
        }
    }
    if r.is_err() {
        return r;
    }
    let ghost mid = drv.sent();
    let r = drv.set_contrast_current(0x9f);
    proof {
        if I::keeps_record() {
            lemma_next_command(start, mid, drv.sent(), plan, 12, r);
        }
    }
    if r.is_err() {
        return r;
    }
    let ghost mid = drv.sent();
    let r = drv.set_master_contrast_current_control(0x0f);
    proof {
        if I::keeps_record() {
            lemma_next_command(start, mid, drv.sent(), plan, 13, r);
        }
    }
    if r.is_err() {
        return r;
    }
    let ghost mid = drv.sent();
    let r = drv.set_default_grayscale_table();
    proof {
        if I::keeps_record() {
            lemma_next_command(start, mid, drv.sent(), plan, 14, r);
        }
    }
    if r.is_err() {
        return r;
    }
    let ghost mid = drv.sent();
    let r = drv.set_phase_lengths(5, 14);
    proof {
        if I::keeps_record() {
            lemma_next_command(start, mid, drv.sent(), plan, 15, r);
        }
    }
    if r.is_err() {
        return r;
    }
    let ghost mid = drv.sent();
    let r = drv.set_display_enhancement_b(DisplayEnhancementB::Normal);
    proof {
        if I::keeps_record() {
            lemma_next_command(start, mid, drv.sent(), plan, 16, r);
        }
    }
    if r.is_err() {
        return r;
    }
    let ghost mid = drv.sent();
    let r = drv.set_precharge_voltage_level(0x1d);
    proof {
        if I::keeps_record() {
            lemma_next_command(start, mid, drv.sent(), plan, 17, r);
        }
    }
    if r.is_err() {
        return r;
    }
    let ghost mid = drv.sent();
    let r = drv.set_second_precharge_period(8);
    proof {
        if I::keeps_record() {
            lemma_next_command(start, mid, drv.sent(), plan, 18, r);
        }
    }
    if r.is_err() {
        return r;
    }
    let ghost mid = drv.sent();
    let r = drv.set_deselect_voltage_level(0x07);
    proof {
        if I::keeps_record() {
            lemma_next_command(start, mid, drv.sent(), plan, 19, r);
        }
    }
    if r.is_err() {
        return r;
    }
    let ghost mid = drv.sent();
    let r = drv.set_display_mode(DisplayMode::Normal);
    proof {
        if I::keeps_record() {
            lemma_next_command(start, mid, drv.sent(), plan, 20, r);
        }
    }
    if r.is_err() {
        return r;
    }
    let ghost mid = drv.sent();
    let r = drv.write_gdram_iter(Repeat::new(0x0, 8192));
    proof {
        if I::keeps_record() {
            lemma_next_command(start, mid, drv.sent(), plan, 21, r);
        }
    }
    if r.is_err() {
        return r;
    }
    let ghost mid = drv.sent();
    let r = drv.set_sleep_mode(false);
    proof {
        if I::keeps_record() {
            lemma_next_command(start, mid, drv.sent(), plan, 22, r);
        }
    }
    if r.is_err() {
        return r;
    }
    assert(plan.take(23) =~= plan);
    Ok(())
}

} // verus!
