use escrow::error::{EscrowError, ProgramError};
use escrow::instruction::EscrowInstruction;
use escrow::le::{read_u64_le, write_u64_le};
use escrow::pubkey::Pubkey;
use escrow::state::Escrow;

fn sample_escrow() -> Escrow {
    Escrow {
        is_initialized: true,
        initializer_pubkey: Pubkey::new_from_array([1u8; 32]),
        temp_token_account_pubkey: Pubkey::new_from_array([2u8; 32]),
        initializer_token_to_receive_account_pubkey: Pubkey::new_from_array([3u8; 32]),
        expected_amount: 500,
    }
}

fn sample_bytes() -> Vec<u8> {
    let mut bytes = vec![1u8];
    bytes.extend_from_slice(&[1u8; 32]);
    bytes.extend_from_slice(&[2u8; 32]);
    bytes.extend_from_slice(&[3u8; 32]);
    bytes.extend_from_slice(&[244, 1, 0, 0, 0, 0, 0, 0]);
    bytes
}

#[test]
fn error_codes_are_positions() {
    assert_eq!(EscrowError::InvalidInstruction.code(), 0);
    assert_eq!(EscrowError::NotRentExempt.code(), 1);
    assert_eq!(ProgramError::from(EscrowError::InvalidInstruction), ProgramError::Custom(0));
    assert_eq!(ProgramError::from(EscrowError::NotRentExempt), ProgramError::Custom(1));
}

#[test]
fn little_endian_exact_values() {
    assert_eq!(read_u64_le(&[244, 1, 0, 0, 0, 0, 0, 0]), 500);
    assert_eq!(read_u64_le(&[1, 2, 3, 4, 5, 6, 7, 8]), 0x0807_0605_0403_0201);
    assert_eq!(read_u64_le(&[255; 8]), u64::MAX);
    assert_eq!(write_u64_le(500), [244, 1, 0, 0, 0, 0, 0, 0]);
    assert_eq!(write_u64_le(0x0807_0605_0403_0201), [1, 2, 3, 4, 5, 6, 7, 8]);
    assert_eq!(write_u64_le(u64::MAX), [255; 8]);
    assert_eq!(write_u64_le(0), [0; 8]);
}

#[test]
fn little_endian_agrees_with_std() {
    for x in [0u64, 1, 255, 256, 65_535, 1 << 32, 0xdead_beef_0123_4567, u64::MAX - 1] {
        assert_eq!(write_u64_le(x), x.to_le_bytes());
        assert_eq!(read_u64_le(&x.to_le_bytes()), x);
    }
}

#[test]
fn instruction_init_escrow_decodes() {
    let payload = [0u8, 244, 1, 0, 0, 0, 0, 0, 0];
    assert_eq!(EscrowInstruction::unpack(&payload), Ok(EscrowInstruction::InitEscrow { amount: 500 }));
}

#[test]
fn instruction_ignores_bytes_after_the_amount() {
    let payload = [0u8, 1, 0, 0, 0, 0, 0, 0, 0, 9, 9, 9];
    assert_eq!(EscrowInstruction::unpack(&payload), Ok(EscrowInstruction::InitEscrow { amount: 1 }));
}

#[test]
fn instruction_unknown_tag_is_rejected() {
    let payload = [1u8, 0, 0, 0, 0, 0, 0, 0, 0];
    assert_eq!(EscrowInstruction::unpack(&payload), Err(ProgramError::Custom(0)));
    for tag in 1..=255u8 {
        let payload = [tag, 244, 1, 0, 0, 0, 0, 0, 0];
        assert_eq!(EscrowInstruction::unpack(&payload), Err(ProgramError::Custom(0)));
    }
}

#[test]
fn instruction_empty_payload_is_rejected() {
    assert_eq!(EscrowInstruction::unpack(&[]), Err(ProgramError::Custom(0)));
}

#[test]
fn instruction_short_amount_is_rejected() {
    let payload = [0u8, 244, 1, 0, 0, 0, 0, 0, 0];
    for len in 1..9 {
        assert_eq!(EscrowInstruction::unpack(&payload[..len]), Err(ProgramError::Custom(0)));
    }
}

#[test]
fn amount_is_read_from_the_first_eight_bytes() {
    assert_eq!(EscrowInstruction::unpack_amount(&[244, 1, 0, 0, 0, 0, 0, 0]), Ok(500));
    assert_eq!(EscrowInstruction::unpack_amount(&[0, 0, 0, 0, 0, 0, 0, 1, 7]), Ok(1 << 56));
    assert_eq!(EscrowInstruction::unpack_amount(&[244, 1, 0, 0, 0, 0, 0]), Err(ProgramError::Custom(0)));
    assert_eq!(EscrowInstruction::unpack_amount(&[]), Err(ProgramError::Custom(0)));
}

#[test]
fn escrow_packs_to_the_fixed_layout() {
    let mut dst = [0u8; 105];
    sample_escrow().pack_into_slice(&mut dst);
    assert_eq!(dst.to_vec(), sample_bytes());
    assert_eq!(Escrow::LEN, 105);
}

#[test]
fn escrow_pack_leaves_the_rest_of_a_longer_buffer() {
    let mut dst = [7u8; 110];
    sample_escrow().pack_into_slice(&mut dst);
    assert_eq!(dst[..105].to_vec(), sample_bytes());
    assert_eq!(dst[105..], [7u8; 5]);
}

#[test]
fn escrow_unpacks_from_the_fixed_layout() {
    assert_eq!(Escrow::unpack_from_slice(&sample_bytes()), Ok(sample_escrow()));
    assert_eq!(Escrow::unpack_unchecked(&sample_bytes()), Ok(sample_escrow()));
}

#[test]
fn escrow_round_trip() {
    let amounts = [0u64, 1, 500, 1 << 40, u64::MAX];
    for (i, amount) in amounts.iter().enumerate() {
        let mut key = [0u8; 32];
        for (j, byte) in key.iter_mut().enumerate() {
            *byte = (i * 37 + j * 11) as u8;
        }
        let escrow = Escrow {
            is_initialized: i % 2 == 0,
            initializer_pubkey: Pubkey::new_from_array(key),
            temp_token_account_pubkey: Pubkey::new_from_array([i as u8; 32]),
            initializer_token_to_receive_account_pubkey: Pubkey::new_from_array([255 - i as u8; 32]),
            expected_amount: *amount,
        };
        let mut dst = [0u8; 105];
        assert_eq!(Escrow::pack(escrow, &mut dst), Ok(()));
        assert_eq!(Escrow::unpack_unchecked(&dst), Ok(escrow));
    }
}

#[test]
fn escrow_all_zero_buffer_is_an_unused_record() {
    let escrow = Escrow::unpack_unchecked(&[0u8; 105]).unwrap();
    assert!(!escrow.is_initialized());
    assert_eq!(escrow.initializer_pubkey, Pubkey::new_from_array([0u8; 32]));
    assert_eq!(escrow.expected_amount, 0);
}

#[test]
fn escrow_bad_flag_is_rejected() {
    for flag in 2..=255u8 {
        let mut bytes = sample_bytes();
        bytes[0] = flag;
        assert_eq!(Escrow::unpack_from_slice(&bytes), Err(ProgramError::InvalidAccountData));
        assert_eq!(Escrow::unpack_unchecked(&bytes), Err(ProgramError::InvalidAccountData));
    }
}

#[test]
fn escrow_wrong_length_is_rejected() {
    let bytes = sample_bytes();
    assert_eq!(Escrow::unpack_unchecked(&bytes[..104]), Err(ProgramError::InvalidAccountData));
    assert_eq!(Escrow::unpack_unchecked(&[]), Err(ProgramError::InvalidAccountData));
    let mut longer = bytes.clone();
    longer.push(0);
    assert_eq!(Escrow::unpack_unchecked(&longer), Err(ProgramError::InvalidAccountData));
    assert_eq!(Escrow::unpack_from_slice(&longer), Ok(sample_escrow()));
}

#[test]
fn escrow_pack_refuses_a_buffer_of_another_length() {
    let mut short = [9u8; 104];
    assert_eq!(Escrow::pack(sample_escrow(), &mut short), Err(ProgramError::InvalidAccountData));
    assert_eq!(short, [9u8; 104]);
    let mut long = [9u8; 106];
    assert_eq!(Escrow::pack(sample_escrow(), &mut long), Err(ProgramError::InvalidAccountData));
    assert_eq!(long, [9u8; 106]);
}

#[test]
fn pubkey_equality_and_bytes() {
    let a = Pubkey::new_from_array([5u8; 32]);
    let mut other = [5u8; 32];
    other[31] = 6;
    let b = Pubkey::new_from_array(other);
    assert!(a.equals(&a));
    assert!(!a.equals(&b));
    assert_eq!(a.to_bytes(), [5u8; 32]);
    assert_eq!(Pubkey::from_slice(&other), b);
}
