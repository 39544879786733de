use awos::macho_bind::legacy::{
    bind_opcodes, rebase_opcodes, BindOpcode, Decoded, LegacyError, RebaseOpcode,
    BIND_OPCODE_SET_DYLIB_ORDINAL_ULEB,
};

fn collect_rebase(bytes: &[u8]) -> Vec<Decoded<RebaseOpcode>> {
    let mut iter = rebase_opcodes(bytes);
    let mut out = Vec::new();
    while let Some(item) = iter.next() {
        out.push(item.unwrap());
    }
    out
}

fn collect_bind(bytes: &[u8]) -> Vec<Decoded<BindOpcode<'_>>> {
    let mut iter = bind_opcodes(bytes);
    let mut out = Vec::new();
    while let Some(item) = iter.next() {
        out.push(item.unwrap());
    }
    out
}


#[test]
fn decodes_rebase_sequence_and_stops_at_done() {
    let bytes = [0x11, 0x22, 0x81, 0x01, 0x30, 0x10, 0x53, 0x00, 0xaa, 0xbb];
    let decoded = collect_rebase(&bytes);
    assert_eq!(decoded.len(), 5);
    assert_eq!(decoded[0].opcode, RebaseOpcode::SetType { kind: 1 });
    assert_eq!(
        decoded[1].opcode,
        RebaseOpcode::SetSegmentAndOffset {
            segment: 2,
            offset: 129,
        }
    );
    assert_eq!(decoded[2].opcode, RebaseOpcode::AddAddress { amount: 16 });
    assert_eq!(
        decoded[3].opcode,
        RebaseOpcode::DoRebaseImmediateTimes { count: 3 }
    );
    assert_eq!(decoded[4].opcode, RebaseOpcode::Done);
}

#[test]
fn rejects_excessive_rebase_padding() {
    let bytes = vec![0u8; 17];
    assert_eq!(
        rebase_opcodes(&bytes).next(),
        Some(Err(LegacyError::ExcessiveRebasePadding {
            offset: 0,
            remaining: 16,
        }))
    );
}

#[test]
fn decodes_bind_symbol_special_ordinal_and_negative_addend() {
    let bytes = [
        0x3f, 0x41, b'f', b'o', b'o', 0, 0x60, 0x7e, 0x72, 0x05, 0x90, 0x00,
    ];
    let decoded = collect_bind(&bytes);
    assert_eq!(decoded.len(), 6);
    assert_eq!(
        decoded[0].opcode,
        BindOpcode::SetDylibSpecialImmediate { ordinal: -1 }
    );
    assert_eq!(
        decoded[1].opcode,
        BindOpcode::SetSymbolTrailingFlags {
            flags: 1,
            symbol: b"foo",
        }
    );
    assert_eq!(decoded[2].opcode, BindOpcode::SetAddend { addend: -2 });
    assert_eq!(
        decoded[3].opcode,
        BindOpcode::SetSegmentAndOffset {
            segment: 2,
            offset: 5,
        }
    );
    assert_eq!(decoded[4].opcode, BindOpcode::DoBind);
    assert_eq!(decoded[5].opcode, BindOpcode::Done);
}

#[test]
fn lazy_bind_done_does_not_hide_following_entry() {
    let bytes = [0x11, 0x00, 0x12, 0x00];
    let decoded = collect_bind(&bytes);
    assert_eq!(decoded.len(), 4);
    assert_eq!(
        decoded[0].opcode,
        BindOpcode::SetDylibOrdinalImmediate { ordinal: 1 }
    );
    assert_eq!(decoded[1].opcode, BindOpcode::Done);
    assert_eq!(
        decoded[2].opcode,
        BindOpcode::SetDylibOrdinalImmediate { ordinal: 2 }
    );
    assert_eq!(decoded[3].opcode, BindOpcode::Done);
}

#[test]
fn rejects_truncated_and_overflowing_uleb() {
    let truncated = [BIND_OPCODE_SET_DYLIB_ORDINAL_ULEB, 0x80];
    assert_eq!(
        bind_opcodes(&truncated).next(),
        Some(Err(LegacyError::UnexpectedEnd { offset: 2 }))
    );

    let mut overflow = vec![BIND_OPCODE_SET_DYLIB_ORDINAL_ULEB];
    overflow.extend_from_slice(&[0xff; 10]);
    assert_eq!(
        bind_opcodes(&overflow).next(),
        Some(Err(LegacyError::UlebOverflow { offset: 1 }))
    );
}

#[test]
fn rejects_unterminated_or_empty_symbol() {
    let unterminated = [0x40, b'f', b'o', b'o'];
    assert_eq!(
        bind_opcodes(&unterminated).next(),
        Some(Err(LegacyError::UnterminatedSymbol { offset: 0 }))
    );

    let empty = [0x40, 0];
    assert_eq!(
        bind_opcodes(&empty).next(),
        Some(Err(LegacyError::EmptySymbol { offset: 0 }))
    );
}

#[test]
fn unsupported_threaded_bind_fails_closed_and_seals_iterator() {
    let bytes = [0xd0, 0x90];
    let mut iter = bind_opcodes(&bytes);
    assert_eq!(
        iter.next(),
        Some(Err(LegacyError::UnknownBindOpcode {
            offset: 0,
            opcode: 0xd0,
        }))
    );
    assert_eq!(iter.next(), None);
}

#[test]
fn decodes_all_compound_count_and_skip_operands() {
    let rebase = [0x80, 0x03, 0x20, 0x00];
    let first = rebase_opcodes(&rebase).next().unwrap().unwrap();
    assert_eq!(
        first.opcode,
        RebaseOpcode::DoRebaseUlebTimesSkipping { count: 3, skip: 32 }
    );

    let bind = [0xc0, 0x04, 0x18];
    let first = bind_opcodes(&bind).next().unwrap().unwrap();
    assert_eq!(
        first.opcode,
        BindOpcode::DoBindUlebTimesSkipping { count: 4, skip: 24 }
    );
}

#[test]
fn bind_offsets_strictly_increase_within_the_stream() {
    let bytes = [0x11, 0x72, 0x81, 0x01, 0x40, 0x5f, 0x61, 0x00, 0x90, 0x00];
    let decoded = collect_bind(&bytes);
    let offsets: Vec<usize> = decoded.iter().map(|d| d.offset).collect();
    assert_eq!(offsets, vec![0, 1, 4, 8, 9]);
    for pair in offsets.windows(2) {
        assert!(pair[0] < pair[1]);
    }
    assert!(offsets.iter().all(|&offset| offset < bytes.len()));
}
