use winservice::arguments::decode_arguments;

#[test]
fn no_arguments_give_no_strings() {
    let native: Vec<Vec<u8>> = Vec::new();
    assert_eq!(decode_arguments(&native), Vec::<String>::new());
}

#[test]
fn arguments_keep_their_order_and_count() {
    let native = vec![
        b"demo".to_vec(),
        b"--port".to_vec(),
        b"8080".to_vec(),
        b"".to_vec(),
        b"--port".to_vec(),
    ];
    assert_eq!(decode_arguments(&native), vec!["demo", "--port", "8080", "", "--port"]);
}

#[test]
fn well_formed_text_is_decoded_exactly() {
    let native = vec![
        "gr\u{fc}\u{df}e".as_bytes().to_vec(),
        "\u{65e5}\u{672c}\u{8a9e}".as_bytes().to_vec(),
        "\u{1f980}".as_bytes().to_vec(),
    ];
    assert_eq!(
        decode_arguments(&native),
        vec!["gr\u{fc}\u{df}e", "\u{65e5}\u{672c}\u{8a9e}", "\u{1f980}"]
    );
}

#[test]
fn an_ill_formed_argument_is_replaced_not_dropped() {
    let native = vec![b"first".to_vec(), vec![0x66, 0xff, 0x6f], b"last".to_vec()];
    let args = decode_arguments(&native);
    assert_eq!(args.len(), 3);
    assert_eq!(args[0], "first");
    assert_eq!(args[1], "f\u{fffd}o");
    assert_eq!(args[2], "last");
}

#[test]
fn a_truncated_sequence_becomes_one_replacement_character() {
    let native = vec![vec![0xe6, 0x97], vec![0xc3], vec![0x80, 0x41]];
    assert_eq!(decode_arguments(&native), vec!["\u{fffd}", "\u{fffd}", "\u{fffd}A"]);
}

#[test]
fn the_input_is_left_as_it_was() {
    let native = vec![b"a".to_vec(), vec![0xff]];
    let copy = native.clone();
    let _ = decode_arguments(&native);
    assert_eq!(native, copy);
}
