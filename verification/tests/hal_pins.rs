use analog_multiplexer::{Level, Line, Multiplexer, Pin};
use embedded_hal::digital::v2::OutputPin;

/// An `embedded-hal` output pin that remembers its level.
struct BoardPin {
    high: bool,
}

impl OutputPin for BoardPin {
    type Error = core::convert::Infallible;

    fn set_low(&mut self) -> Result<(), Self::Error> {
        self.high = false;
        Ok(())
    }

    fn set_high(&mut self) -> Result<(), Self::Error> {
        self.high = true;
        Ok(())
    }
}

/// Hands an `embedded-hal` pin to the driver.
struct Hal<P>(P);

impl<P: OutputPin> Pin for Hal<P> {
    type Error = P::Error;

    fn set_low(&mut self) -> Result<(), Self::Error> {
        self.0.set_low()
    }

    fn set_high(&mut self) -> Result<(), Self::Error> {
        self.0.set_high()
    }
}

fn line(high: bool) -> Line<Hal<BoardPin>> {
    Line::new(Hal(BoardPin { high }))
}

#[test]
fn drives_embedded_hal_pins_sixteen() {
    let mut mux = Multiplexer::new((line(true), line(true), line(true), line(true), line(true)));
    assert_eq!(mux.num_channels(), 16);
    assert!(!mux.pins().4.pin().0.high);
    mux.set_channel(11).unwrap();
    let p = mux.pins();
    assert!(p.0.pin().0.high);
    assert!(p.1.pin().0.high);
    assert!(!p.2.pin().0.high);
    assert!(p.3.pin().0.high);
    assert_eq!(p.3.level(), Some(Level::High));
    mux.disable();
    assert!(mux.pins().4.pin().0.high);
}

#[test]
fn drives_embedded_hal_pins_eight() {
    let mut mux = Multiplexer::new((line(true), line(false), line(true), line(true)));
    assert_eq!(mux.num_channels(), 8);
    mux.set_channel(5).unwrap();
    let p = mux.pins();
    assert!(p.0.pin().0.high);
    assert!(!p.1.pin().0.high);
    assert!(p.2.pin().0.high);
    assert!(!p.3.pin().0.high);
    assert!(mux.set_channel(8).is_err());
}
