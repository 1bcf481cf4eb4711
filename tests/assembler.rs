use nes_emu::assembler::Asm;

#[test]
fn test_dd() {
    let mut block = Asm::new();
    let addr = block.dd(&[0x12, 0x21, 0x32]);
    assert_eq!(addr, 0);
    assert_eq!(block.code, vec![0x12, 0x21, 0x32]);
    let addr = block.dd(&[0x13, 0x22, 0x33]);
    assert_eq!(block.code, vec![0x12, 0x21, 0x32, 0x13, 0x22, 0x33]);
    assert_eq!(addr, 3);
}
