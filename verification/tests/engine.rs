use ffmpeg_next::{init, init_device, init_error, init_filter, init_format, Engine};

#[test]
fn a_new_engine_has_nothing_registered() {
    let engine = Engine::new(true, false, true);
    assert!(engine.format);
    assert!(!engine.device);
    assert!(engine.filter);
    assert!(!engine.errors_registered);
    assert!(!engine.formats_registered);
    assert!(!engine.devices_registered);
    assert!(!engine.filters_registered);
}

#[test]
fn init_registers_every_service_of_the_build() {
    let mut engine = Engine::new(true, true, true);
    assert_eq!(init(&mut engine), Ok(()));
    assert_eq!(
        engine,
        Engine {
            format: true,
            device: true,
            filter: true,
            errors_registered: true,
            formats_registered: true,
            devices_registered: true,
            filters_registered: true,
        }
    );
}

#[test]
fn init_leaves_out_what_the_build_lacks() {
    let mut engine = Engine::new(true, false, false);
    assert_eq!(init(&mut engine), Ok(()));
    assert!(engine.errors_registered);
    assert!(engine.formats_registered);
    assert!(!engine.devices_registered);
    assert!(!engine.filters_registered);
    let mut bare = Engine::new(false, false, false);
    assert_eq!(init(&mut bare), Ok(()));
    assert!(bare.errors_registered);
    assert!(!bare.formats_registered);
}

#[test]
fn init_twice_is_init_once() {
    let mut engine = Engine::new(true, false, true);
    assert_eq!(init(&mut engine), Ok(()));
    let once = engine;
    assert_eq!(init(&mut engine), Ok(()));
    assert_eq!(engine, once);
}

#[test]
fn each_registration_is_due_once() {
    let mut engine = Engine::new(true, true, false);
    assert!(init_error(&mut engine));
    assert!(!init_error(&mut engine));
    assert!(init_format(&mut engine));
    assert!(!init_format(&mut engine));
    assert!(init_device(&mut engine));
    assert!(!init_device(&mut engine));
    assert!(!init_filter(&mut engine));
    assert!(!engine.filters_registered);
    assert!(engine.errors_registered && engine.formats_registered && engine.devices_registered);
}

#[test]
fn nothing_is_due_after_init() {
    let mut engine = Engine::new(true, true, true);
    assert_eq!(init(&mut engine), Ok(()));
    assert!(!init_error(&mut engine));
    assert!(!init_format(&mut engine));
    assert!(!init_device(&mut engine));
    assert!(!init_filter(&mut engine));
}
