use virtual_cpu::io::{IOController, IODevice, MockIOController};

#[test]
fn mock_starts_at_zero() {
    let mut mock = MockIOController::new();
    assert_eq!(mock.get_last_output(), 0);
    assert_eq!(mock.input(), 0);
}

#[test]
fn mock_returns_preset_input_every_time() {
    let mut mock = MockIOController::new();
    mock.set_next_input(17);
    assert_eq!(mock.input(), 17);
    assert_eq!(mock.input(), 17);
    assert_eq!(mock.get_last_output(), 0);
}

#[test]
fn mock_remembers_last_output() {
    let mut mock = MockIOController::new();
    mock.set_next_input(3);
    mock.output(8);
    mock.output(9);
    assert_eq!(mock.get_last_output(), 9);
    assert_eq!(mock.input(), 3);
}

#[test]
fn controller_forwards_to_its_device() {
    let mut mock = MockIOController::new();
    mock.set_next_input(21);
    let mut io = IOController::new(mock);
    assert_eq!(io.input(), 21);
    io.output(34);
    assert_eq!(io.device().get_last_output(), 34);
    io.device_mut().set_next_input(55);
    assert_eq!(io.input(), 55);
    assert_eq!(io.device().get_last_output(), 34);
}
