use vk_compute::create_shader_module;
use vk_compute::error::Error;
use vk_compute::shader::{assemble_word, ByteOrder};

#[test]
fn length_not_divisible_by_four_is_rejected() {
    for len in [1usize, 2, 3, 5, 6, 7, 9, 1023, 4097] {
        let bytes = vec![0u8; len];
        assert!(
            matches!(create_shader_module(&bytes), Err(Error::Format)),
            "length {} was accepted",
            len
        );
    }
}

#[test]
fn length_divisible_by_four_is_accepted() {
    for len in [0usize, 4, 8, 12, 1024, 4096] {
        let bytes = vec![0xabu8; len];
        let unit = create_shader_module(&bytes).expect("aligned bytecode");
        assert_eq!(unit.code_size(), len);
        assert_eq!(unit.word_count(), len / 4);
        assert_eq!(unit.bytes(), &bytes);
    }
}

#[test]
fn every_length_up_to_sixty_four_is_judged_by_its_remainder() {
    for len in 0usize..=64 {
        let bytes: Vec<u8> = (0..len).map(|i| i as u8).collect();
        assert_eq!(create_shader_module(&bytes).is_ok(), len % 4 == 0);
    }
}

#[test]
fn misaligned_bytecode_message() {
    match create_shader_module(&[1, 2, 3]) {
        Ok(_) => panic!("misaligned bytecode was accepted"),
        Err(e) => assert_eq!(e.message(), "misaligned shader bytecode"),
    }
}

#[test]
fn instruction_stream_is_not_validated() {
    // Not a valid module, but a whole number of words.
    let unit = create_shader_module(&[0xff; 8]).expect("aligned bytecode");
    assert_eq!(unit.words(ByteOrder::LittleEndian), vec![0xffff_ffff, 0xffff_ffff]);
}

#[test]
fn entry_point_is_main() {
    let unit = create_shader_module(&[]).expect("empty bytecode");
    assert_eq!(unit.entry_point(), "main");
    assert_eq!(unit.word_count(), 0);
    assert!(unit.words(ByteOrder::LittleEndian).is_empty());
}

#[test]
fn words_are_read_in_the_given_byte_order() {
    let bytes = [0x03, 0x02, 0x23, 0x07, 0x00, 0x00, 0x01, 0x00];
    let unit = create_shader_module(&bytes).expect("aligned bytecode");
    assert_eq!(unit.words(ByteOrder::LittleEndian), vec![0x0723_0203, 0x0001_0000]);
    assert_eq!(unit.words(ByteOrder::BigEndian), vec![0x0302_2307, 0x0000_0100]);
}

#[test]
fn words_agree_with_std_conversions() {
    let bytes: Vec<u8> = (0..=255u8).collect();
    let unit = create_shader_module(&bytes).expect("aligned bytecode");
    let little = unit.words(ByteOrder::LittleEndian);
    let big = unit.words(ByteOrder::BigEndian);
    assert_eq!(little.len(), 64);
    for (i, chunk) in bytes.chunks(4).enumerate() {
        let four = [chunk[0], chunk[1], chunk[2], chunk[3]];
        assert_eq!(little[i], u32::from_le_bytes(four));
        assert_eq!(big[i], u32::from_be_bytes(four));
    }
}

#[test]
fn assemble_word_exact_values() {
    assert_eq!(assemble_word(ByteOrder::LittleEndian, 0x78, 0x56, 0x34, 0x12), 0x1234_5678);
    assert_eq!(assemble_word(ByteOrder::BigEndian, 0x78, 0x56, 0x34, 0x12), 0x7856_3412);
    assert_eq!(assemble_word(ByteOrder::LittleEndian, 0xff, 0xff, 0xff, 0xff), u32::MAX);
    assert_eq!(assemble_word(ByteOrder::BigEndian, 0, 0, 0, 0), 0);
}
