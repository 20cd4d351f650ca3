use memmap2::MmapMut;
use smi_led::gpio::{mode_bits, Gpio, GpioMode, GPIO_CLR0, GPIO_LEV0, GPIO_SET0};
use smi_led::regwin::RegisterWindow;

fn fresh_gpio() -> Gpio {
    Gpio::new(RegisterWindow::new(MmapMut::map_anon(0x1000).unwrap()))
}

#[test]
fn mode_codes() {
    assert_eq!(mode_bits(&GpioMode::Input), 0);
    assert_eq!(mode_bits(&GpioMode::Output), 1);
    assert_eq!(mode_bits(&GpioMode::Alt0), 4);
    assert_eq!(mode_bits(&GpioMode::Alt1), 5);
    assert_eq!(mode_bits(&GpioMode::Alt5), 2);
}

#[test]
fn configure_pin_programs_its_function_field() {
    let mut g = fresh_gpio();
    g.configure_pin(8, GpioMode::Alt1);
    // pin 8's three-bit field sits at bit 24 of the first function
    // register
    assert_eq!(g.win.read_reg(0), 5 << 24);
}

#[test]
fn configure_pin_preserves_other_fields() {
    let mut g = fresh_gpio();
    g.configure_pin(8, GpioMode::Alt1);
    g.configure_pin(9, GpioMode::Output);
    assert_eq!(g.win.read_reg(0), (5 << 24) | (1 << 27));
}

#[test]
fn set_pin_targets_set_and_clear_registers() {
    let mut g = fresh_gpio();
    g.set_pin(8, true);
    assert_eq!(g.win.read_reg(GPIO_SET0) & (1 << 8), 1 << 8);
    g.set_pin(8, false);
    assert_eq!(g.win.read_reg(GPIO_CLR0) & (1 << 8), 1 << 8);
}

#[test]
fn read_pin_reports_level_bit() {
    let mut g = fresh_gpio();
    assert!(!g.read_pin(8));
    g.win.write_reg(GPIO_LEV0, 1 << 8);
    assert!(g.read_pin(8));
}

#[test]
fn release_pins_returns_them_to_input() {
    let mut g = fresh_gpio();
    g.configure_pin(8, GpioMode::Alt1);
    g.release_pins();
    assert_eq!(g.win.read_reg(0), 0);
}
