use web_sw_cor24_x_tinyc::demos::{
    demo_choice, demo_url, fetch_failed_source, inline_source, DemoChoice, ADDER_SOURCE,
    COUNTER_SOURCE, DEFAULT_SOURCE, DEMO10B_SRC, DEMOS, HELLO_SOURCE, I2C_ADD1_SOURCE,
    I2C_DS1307_SOURCE, INTERACTIVE_DEMOS, LED_SWITCH_SOURCE, RAW_BASE, SPI_SDCARD_SOURCE,
    UART_ECHO_SOURCE,
};

#[test]
fn inline_hello() {
    assert_eq!(inline_source("hello"), Some(HELLO_SOURCE));
    assert_eq!(inline_source("demo10b.c"), Some(DEMO10B_SRC));
    assert_eq!(inline_source("demo2.c"), None);
}

#[test]
fn every_interactive_demo_is_inline() {
    let expected = [
        ("hello", HELLO_SOURCE),
        ("echo", UART_ECHO_SOURCE),
        ("led-switch", LED_SWITCH_SOURCE),
        ("counter", COUNTER_SOURCE),
        ("adder", ADDER_SOURCE),
        ("i2c-add1", I2C_ADD1_SOURCE),
        ("i2c-ds1307", I2C_DS1307_SOURCE),
        ("spi-sdcard", SPI_SDCARD_SOURCE),
    ];
    assert_eq!(INTERACTIVE_DEMOS.len(), expected.len());
    for (i, (id, src)) in expected.iter().enumerate() {
        assert_eq!(INTERACTIVE_DEMOS[i].0, *id);
        assert_eq!(inline_source(id), Some(*src));
    }
    assert_eq!(DEFAULT_SOURCE, HELLO_SOURCE);
    assert!(HELLO_SOURCE.contains("printf(\"Hello, World!\\n\");"));
}

#[test]
fn fetched_demos_are_not_inline() {
    assert_eq!(DEMOS.len(), 55);
    for (file, _) in DEMOS.iter() {
        if *file == "demo10b.c" {
            assert_eq!(inline_source(file), Some(DEMO10B_SRC));
        } else {
            assert_eq!(inline_source(file), None);
        }
    }
    assert_eq!(inline_source(""), None);
    assert_eq!(inline_source("Hello"), None);
}

#[test]
fn choosing_a_demo() {
    assert!(matches!(demo_choice(""), DemoChoice::Nothing));
    assert!(matches!(demo_choice("echo"), DemoChoice::Inline(s) if s == UART_ECHO_SOURCE));
    assert!(matches!(demo_choice("demo10b.c"), DemoChoice::Inline(s) if s == DEMO10B_SRC));
    match demo_choice("demo5.c") {
        DemoChoice::Fetch(url) => assert_eq!(
            url,
            "https://raw.githubusercontent.com/sw-embed/sw-cor24-x-tinyc/main/demos/demo5.c"
        ),
        _ => panic!("demo5.c is fetched"),
    }
    assert_eq!(demo_url("demo.c"), format!("{}demo.c", RAW_BASE));
    assert_eq!(fetch_failed_source("demo9.c"), "// Failed to fetch demo9.c");
}
