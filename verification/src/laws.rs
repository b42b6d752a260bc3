//! Laws of the wallet: what holds of its functions for all inputs, proved
//! from their contracts.

use crate::address_format::chains_of;
use crate::amount::{digit_val, digits_value};
use crate::chains::address_validation::{
    all_base58_from, all_hex_from, eth_verdict, is_base58_char, is_eth_address, is_hex_digit,
    is_sol_address, is_tron_address, sol_verdict, tron_verdict, verdict,
};
use crate::chains::{address_for, signing_outcome, ChainType};
use crate::crypto::mnemonic::{
    bip39_parse, entropy_len, parses_as, valid_entropy_len, validation_outcome,
};
use crate::chains::bitcoin::{btc_path_prefix, AddressType};
use crate::chains::ethereum::eth_path_prefix;
use crate::chains::kaspa::kaspa_path_prefix;
use crate::chains::solana::sol_path_prefix;
use crate::chains::tron::tron_path_prefix;
use crate::keys::{hardened, normal, path_text, steps_text};
use crate::commands::{chain_named, chain_outcome};
use crate::text::{
    ascii_lowercase, byte_len, decimal_digits, digit_char, has_prefix,
    is_white_space, str_lowercase, str_trim, str_uppercase, trim_end, trim_start,
};
use vstd::prelude::*;

verus! {

/// Two results that [`crate::chains::derive_address`] may return for the
/// same chain, mnemonic and address index are the same: the address is a
/// function of the three.
pub proof fn law_address_is_deterministic(
    chain: ChainType,
    mnemonic: Seq<char>,
    index: u32,
    first: Result<Seq<char>, Seq<char>>,
    second: Result<Seq<char>, Seq<char>>,
)
    requires
        first == address_for(chain, mnemonic, index),
        second == address_for(chain, mnemonic, index),
    ensures
        first == second,
{
}

/// Two results that [`crate::chains::sign_transaction`] may return for the
/// same chain, mnemonic and request are the same: every signer takes its
/// nonce from the key and the message.
pub proof fn law_signing_is_deterministic(
    chain: ChainType,
    mnemonic: Seq<char>,
    tx_data: Seq<char>,
    first: Result<Seq<char>, Seq<char>>,
    second: Result<Seq<char>, Seq<char>>,
)
    requires
        first == signing_outcome(chain, mnemonic, tx_data),
        second == signing_outcome(chain, mnemonic, tx_data),
    ensures
        first == second,
{
}

/// BNB Chain addresses are the Ethereum addresses of the same key.
pub proof fn law_bnb_address_is_eth_address(mnemonic: Seq<char>, index: u32)
    ensures
        address_for(ChainType::Bnb, mnemonic, index) == address_for(
            ChainType::Eth,
            mnemonic,
            index,
        ),
{
}

/// The decimal text of a number spells that number.
pub proof fn law_decimal_round_trip(n: nat)
    ensures
        digits_value(decimal_digits(n)) == n,
    decreases n,
{
    if n < 10 {
        let d = decimal_digits(n);
        assert(d.len() == 1);
        assert(d.drop_last() =~= Seq::<char>::empty());
        assert(digits_value(d.drop_last()) == 0);
        assert(d.last() == digit_char(n));
        assert(digit_val(digit_char(n)) == n);
    } else {
        law_decimal_round_trip(n / 10);
        let d = decimal_digits(n);
        assert(d.drop_last() =~= decimal_digits(n / 10));
        assert(d.last() == digit_char(n % 10));
        assert(digit_val(digit_char(n % 10)) == n % 10);
    }
}

/// Different address indices give different derivation paths under the same
/// prefix.
pub proof fn law_paths_differ(prefix: Seq<char>, i: u32, j: u32)
    requires
        i != j,
    ensures
        path_text(prefix, i) != path_text(prefix, j),
{
    let head = prefix + "/"@;
    let a = decimal_digits(i as nat);
    let b = decimal_digits(j as nat);
    if path_text(prefix, i) == path_text(prefix, j) {
        assert((head + a).skip(head.len() as int) =~= a);
        assert((head + b).skip(head.len() as int) =~= b);
        assert(a == b);
        law_decimal_round_trip(i as nat);
        law_decimal_round_trip(j as nat);
        assert(false);
    }
}

/// The path of a chain with purpose, coin type, account and change as its
/// first four steps, and the address index as its fifth.
pub open spec fn chain_path(
    purpose: u32,
    coin: u32,
    hardened_change: bool,
    index: u32,
) -> Seq<char> {
    steps_text(
        seq![
            hardened(purpose),
            hardened(coin),
            hardened(0),
            if hardened_change {
                hardened(0)
            } else {
                normal(0)
            },
            normal(index),
        ],
    )
}

proof fn lemma_chain_path(purpose: u32, coin: u32, hardened_change: bool, index: u32)
    ensures
        chain_path(purpose, coin, hardened_change, index) == "m/"@ + decimal_digits(purpose as nat)
            + "'/"@ + decimal_digits(coin as nat) + "'/0'/0"@ + (if hardened_change {
            "'"@
        } else {
            Seq::<char>::empty()
        }) + "/"@ + decimal_digits(index as nat),
{
    reveal_strlit("m");
    reveal_strlit("m/");
    reveal_strlit("/");
    reveal_strlit("'");
    reveal_strlit("'/");
    reveal_strlit("'/0'/0");
    let steps = seq![
        hardened(purpose),
        hardened(coin),
        hardened(0),
        if hardened_change {
            hardened(0)
        } else {
            normal(0)
        },
        normal(index),
    ];
    let s4 = steps.drop_last();
    let s3 = s4.drop_last();
    let s2 = s3.drop_last();
    let s1 = s2.drop_last();
    let s0 = s1.drop_last();
    assert(s0.len() == 0);
    assert(steps_text(s0) == "m"@);
    assert(steps_text(s1) == steps_text(s0) + crate::keys::step_text(hardened(purpose)));
    assert(steps_text(s2) == steps_text(s1) + crate::keys::step_text(hardened(coin)));
    assert(steps_text(s3) == steps_text(s2) + crate::keys::step_text(hardened(0)));
    assert(steps_text(s4) == steps_text(s3) + crate::keys::step_text(s4.last()));
    assert(steps_text(steps) == steps_text(s4) + crate::keys::step_text(normal(index)));
    assert(decimal_digits(0) =~= seq!['0']);
    assert(chain_path(purpose, coin, hardened_change, index) =~= "m/"@ + decimal_digits(
        purpose as nat,
    ) + "'/"@ + decimal_digits(coin as nat) + "'/0'/0"@ + (if hardened_change {
        "'"@
    } else {
        Seq::<char>::empty()
    }) + "/"@ + decimal_digits(index as nat));
}

/// The path of every chain is purpose, coin type, account 0 and change 0
/// with the address index behind: purpose 44 and coin type 60 for Ethereum
/// and BNB Chain, coin type 0 with purposes 44, 49 and 84 for the three kinds
/// of Bitcoin address, 501 for Solana, whose change step is hardened too, 195
/// for Tron and 111111 for Kaspa.
pub proof fn law_chain_paths(index: u32)
    ensures
        path_text(eth_path_prefix(), index) == chain_path(44, 60, false, index),
        path_text(btc_path_prefix(AddressType::Legacy), index) == chain_path(44, 0, false, index),
        path_text(btc_path_prefix(AddressType::Segwit), index) == chain_path(49, 0, false, index),
        path_text(btc_path_prefix(AddressType::NativeSegwit), index) == chain_path(
            84,
            0,
            false,
            index,
        ),
        path_text(sol_path_prefix(), index) == chain_path(44, 501, true, index),
        path_text(tron_path_prefix(), index) == chain_path(44, 195, false, index),
        path_text(kaspa_path_prefix(), index) == chain_path(44, 111111, false, index),
{
    reveal_with_fuel(decimal_digits, 7);
    reveal_strlit("m/");
    reveal_strlit("/");
    reveal_strlit("'");
    reveal_strlit("'/");
    reveal_strlit("'/0'/0");
    reveal_strlit("m/44'/60'/0'/0");
    reveal_strlit("m/44'/0'/0'/0");
    reveal_strlit("m/49'/0'/0'/0");
    reveal_strlit("m/84'/0'/0'/0");
    reveal_strlit("m/44'/501'/0'/0'");
    reveal_strlit("m/44'/195'/0'/0");
    reveal_strlit("m/44'/111111'/0'/0");
    lemma_chain_path(44, 60, false, index);
    lemma_chain_path(44, 0, false, index);
    lemma_chain_path(49, 0, false, index);
    lemma_chain_path(84, 0, false, index);
    lemma_chain_path(44, 501, true, index);
    lemma_chain_path(44, 195, false, index);
    lemma_chain_path(44, 111111, false, index);
    assert(decimal_digits(44) =~= seq!['4', '4']);
    assert(decimal_digits(49) =~= seq!['4', '9']);
    assert(decimal_digits(84) =~= seq!['8', '4']);
    assert(decimal_digits(60) =~= seq!['6', '0']);
    assert(decimal_digits(0) =~= seq!['0']);
    assert(decimal_digits(501) =~= seq!['5', '0', '1']);
    assert(decimal_digits(195) =~= seq!['1', '9', '5']);
    assert(decimal_digits(111111) =~= seq!['1', '1', '1', '1', '1', '1']);
    assert(path_text(eth_path_prefix(), index) =~= chain_path(44, 60, false, index));
    assert(path_text(btc_path_prefix(AddressType::Legacy), index) =~= chain_path(
        44,
        0,
        false,
        index,
    ));
    assert(path_text(btc_path_prefix(AddressType::Segwit), index) =~= chain_path(
        49,
        0,
        false,
        index,
    ));
    assert(path_text(btc_path_prefix(AddressType::NativeSegwit), index) =~= chain_path(
        84,
        0,
        false,
        index,
    ));
    assert(path_text(sol_path_prefix(), index) =~= chain_path(44, 501, true, index));
    assert(path_text(tron_path_prefix(), index) =~= chain_path(44, 195, false, index));
    assert(path_text(kaspa_path_prefix(), index) =~= chain_path(44, 111111, false, index));
}

/// A phrase that [`crate::crypto::mnemonic::generate_mnemonic`] has returned
/// for `word_count` words is accepted by
/// [`crate::crypto::mnemonic::validate_mnemonic`], and the parser counts
/// `word_count` words in it.
pub proof fn law_generated_mnemonic_validates(word_count: nat, phrase: Seq<char>)
    requires
        parses_as(phrase, word_count),
    ensures
        validation_outcome(phrase) == Ok::<bool, Seq<char>>(true),
        bip39_parse(phrase) is Ok,
        bip39_parse(phrase)->Ok_0.1 == word_count,
{
}

/// A mnemonic is generated for 12, 15, 18, 21 and 24 words and for no other
/// count, from `word_count * 32 / 3` bits of entropy, which is a length that
/// encodes.
pub proof fn law_word_counts(word_count: nat)
    ensures
        entropy_len(word_count) is Some <==> (word_count == 12 || word_count == 15 || word_count
            == 18 || word_count == 21 || word_count == 24),
        entropy_len(word_count) is Some ==> entropy_len(word_count)->Some_0 * 8 == word_count * 32
            / 3 && valid_entropy_len(entropy_len(word_count)->Some_0),
{
}

/// One character more makes an Ethereum address invalid, and so does taking
/// its first two characters away.
pub proof fn law_eth_address_length(address: Seq<char>, extra: char)
    requires
        is_eth_address(address),
    ensures
        !is_eth_address(address.push(extra)),
        !is_eth_address(address.skip(2)),
{
}

/// A string of characters below U+0080 has as many bytes as characters.
proof fn lemma_plain_byte_len(s: Seq<char>)
    requires
        forall|i: int| 0 <= i < s.len() ==> '\0' <= #[trigger] s[i] <= '\u{7f}',
    ensures
        byte_len(s) == s.len(),
{
    assert(vstd::utf8::is_ascii_chars(s));
    vstd::utf8::is_ascii_chars_encode_utf8(s);
}

/// For Ethereum and BNB Chain, an address is accepted with a message exactly
/// when its trimmed text is `0x` and 40 hexadecimal digits.
pub proof fn law_eth_verdict(address: Seq<char>)
    ensures
        verdict("ETH"@, address).is_valid <==> is_eth_address(str_trim(address)),
        verdict("BNB"@, address).is_valid <==> is_eth_address(str_trim(address)),
{
    let a = str_trim(address);
    reveal_strlit("0x");
    reveal_strlit("ETH");
    reveal_strlit("BNB");
    reveal_strlit("BTC");
    assert("BNB"@ != "ETH"@) by {
        assert("BNB"@[0] != "ETH"@[0]);
    }
    if a.len() == 0 {
    } else {
        assert(verdict("ETH"@, address) == eth_verdict(a));
        assert(verdict("BNB"@, address) == eth_verdict(a));
        if has_prefix(a, "0x"@) {
            assert(a.subrange(0, 2)[0] == a[0] && a.subrange(0, 2)[1] == a[1]);
            if all_hex_from(a, 2) {
                assert forall|i: int| 0 <= i < a.len() implies '\0' <= #[trigger] a[i]
                    <= '\u{7f}' by {
                    if i >= 2 {
                        assert(is_hex_digit(a[i]));
                    }
                }
                lemma_plain_byte_len(a);
            }
        } else {
            if a.len() >= 2 && a[0] == '0' && a[1] == 'x' {
                assert(a.subrange(0, 2) =~= "0x"@);
            }
        }
    }
}

/// For Solana, an address is accepted with a message exactly when its
/// trimmed text is 32 to 44 characters of the Base58 alphabet.
pub proof fn law_sol_verdict(address: Seq<char>)
    ensures
        verdict("SOL"@, address).is_valid <==> is_sol_address(str_trim(address)),
{
    let a = str_trim(address);
    reveal_strlit("SOL");
    reveal_strlit("ETH");
    reveal_strlit("BNB");
    reveal_strlit("BTC");
    assert("SOL"@ != "ETH"@) by {
        assert("SOL"@[0] != "ETH"@[0]);
    }
    assert("SOL"@ != "BNB"@) by {
        assert("SOL"@[0] != "BNB"@[0]);
    }
    assert("SOL"@ != "BTC"@) by {
        assert("SOL"@[0] != "BTC"@[0]);
    }
    if a.len() > 0 {
        assert(verdict("SOL"@, address) == sol_verdict(a));
        if all_base58_from(a, 0) {
            assert forall|i: int| 0 <= i < a.len() implies '\0' <= #[trigger] a[i]
                <= '\u{7f}' by {
                assert(is_base58_char(a[i]));
            }
            lemma_plain_byte_len(a);
        }
    }
}

/// For Tron, an address is accepted with a message exactly when its trimmed
/// text is `T` and 33 characters of the Base58 alphabet.
pub proof fn law_tron_verdict(address: Seq<char>)
    ensures
        verdict("TRON"@, address).is_valid <==> is_tron_address(str_trim(address)),
{
    let a = str_trim(address);
    reveal_strlit("TRON");
    reveal_strlit("SOL");
    reveal_strlit("ETH");
    reveal_strlit("BNB");
    reveal_strlit("BTC");
    reveal_strlit("T");
    assert("TRON"@ != "ETH"@) by {
        assert("TRON"@.len() != "ETH"@.len());
    }
    assert("TRON"@ != "BNB"@) by {
        assert("TRON"@.len() != "BNB"@.len());
    }
    assert("TRON"@ != "BTC"@) by {
        assert("TRON"@.len() != "BTC"@.len());
    }
    assert("TRON"@ != "SOL"@) by {
        assert("TRON"@.len() != "SOL"@.len());
    }
    if a.len() > 0 {
        assert(verdict("TRON"@, address) == tron_verdict(a));
        if has_prefix(a, "T"@) {
            assert(a.subrange(0, 1)[0] == a[0]);
            if all_base58_from(a, 1) {
                assert forall|i: int| 0 <= i < a.len() implies '\0' <= #[trigger] a[i]
                    <= '\u{7f}' by {
                    if i >= 1 {
                        assert(is_base58_char(a[i]));
                    }
                }
                lemma_plain_byte_len(a);
            }
        } else {
            if a[0] == 'T' {
                assert(a.subrange(0, 1) =~= "T"@);
            }
        }
    }
}

/// Trimming leaves a text alone that neither starts nor ends with white
/// space.
pub proof fn law_trim_unpadded(s: Seq<char>)
    requires
        s.len() == 0 || (!is_white_space(s[0]) && !is_white_space(s.last())),
    ensures
        str_trim(s) == s,
{
    assert(trim_start(s) == s);
    assert(trim_end(s) == s);
}

/// A well-formed Ethereum address without padding is accepted for Ethereum
/// and for BNB Chain.
pub proof fn law_eth_address_is_accepted(address: Seq<char>)
    requires
        is_eth_address(address),
    ensures
        verdict("ETH"@, address).is_valid,
        verdict("BNB"@, address).is_valid,
{
    assert(is_hex_digit(address.last()));
    law_trim_unpadded(address);
    law_eth_verdict(address);
}

/// A well-formed Solana address without padding is accepted for Solana, and
/// a well-formed Tron address for Tron.
pub proof fn law_sol_and_tron_addresses_are_accepted(address: Seq<char>)
    ensures
        is_sol_address(address) ==> verdict("SOL"@, address).is_valid,
        is_tron_address(address) ==> verdict("TRON"@, address).is_valid,
{
    if is_sol_address(address) {
        assert(is_base58_char(address[0]) && is_base58_char(address.last()));
        law_trim_unpadded(address);
        law_sol_verdict(address);
    }
    if is_tron_address(address) {
        assert(is_base58_char(address.last()));
        law_trim_unpadded(address);
        law_tron_verdict(address);
    }
}

/// For a chain name in ASCII only its letters count, not their case: two
/// names that agree once their uppercase letters are lowered name the same
/// chain, or both none.
pub proof fn law_chain_name_case(a: Seq<char>, b: Seq<char>)
    requires
        vstd::utf8::is_ascii_chars(a),
        vstd::utf8::is_ascii_chars(b),
        ascii_lowercase(a) == ascii_lowercase(b),
    ensures
        chain_named(str_lowercase(a)) == chain_named(str_lowercase(b)),
        chain_outcome(a) is Ok <==> chain_outcome(b) is Ok,
        chain_outcome(a) is Ok ==> chain_outcome(a) == chain_outcome(b),
{
}

/// Each of the seven chain names is read in lower case and in upper case.
pub proof fn law_chain_names()
    ensures
        chain_outcome("eth"@) == Ok::<ChainType, Seq<char>>(ChainType::Eth),
        chain_outcome("ETH"@) == Ok::<ChainType, Seq<char>>(ChainType::Eth),
        chain_outcome("btc"@) == Ok::<ChainType, Seq<char>>(ChainType::Btc),
        chain_outcome("BTC"@) == Ok::<ChainType, Seq<char>>(ChainType::Btc),
        chain_outcome("sol"@) == Ok::<ChainType, Seq<char>>(ChainType::Sol),
        chain_outcome("SOL"@) == Ok::<ChainType, Seq<char>>(ChainType::Sol),
        chain_outcome("bnb"@) == Ok::<ChainType, Seq<char>>(ChainType::Bnb),
        chain_outcome("BNB"@) == Ok::<ChainType, Seq<char>>(ChainType::Bnb),
        chain_outcome("tron"@) == Ok::<ChainType, Seq<char>>(ChainType::Tron),
        chain_outcome("TRON"@) == Ok::<ChainType, Seq<char>>(ChainType::Tron),
        chain_outcome("kaspa"@) == Ok::<ChainType, Seq<char>>(ChainType::Kaspa),
        chain_outcome("KASPA"@) == Ok::<ChainType, Seq<char>>(ChainType::Kaspa),
        chain_outcome("kas"@) == Ok::<ChainType, Seq<char>>(ChainType::Kaspa),
        chain_outcome("KAS"@) == Ok::<ChainType, Seq<char>>(ChainType::Kaspa),
{
    reveal_strlit("eth");
    reveal_strlit("ETH");
    reveal_strlit("btc");
    reveal_strlit("BTC");
    reveal_strlit("sol");
    reveal_strlit("SOL");
    reveal_strlit("bnb");
    reveal_strlit("BNB");
    reveal_strlit("tron");
    reveal_strlit("TRON");
    reveal_strlit("kaspa");
    reveal_strlit("KASPA");
    reveal_strlit("kas");
    reveal_strlit("KAS");
    assert(str_lowercase("eth"@) =~= "eth"@);
    assert(str_lowercase("ETH"@) =~= "eth"@);
    assert(str_lowercase("btc"@) =~= "btc"@);
    assert(str_lowercase("BTC"@) =~= "btc"@);
    assert(str_lowercase("sol"@) =~= "sol"@);
    assert(str_lowercase("SOL"@) =~= "sol"@);
    assert(str_lowercase("bnb"@) =~= "bnb"@);
    assert(str_lowercase("BNB"@) =~= "bnb"@);
    assert(str_lowercase("tron"@) =~= "tron"@);
    assert(str_lowercase("TRON"@) =~= "tron"@);
    assert(str_lowercase("kaspa"@) =~= "kaspa"@);
    assert(str_lowercase("KASPA"@) =~= "kaspa"@);
    assert(str_lowercase("kas"@) =~= "kas"@);
    assert(str_lowercase("KAS"@) =~= "kas"@);
    assert("btc"@ != "eth"@) by {
        assert("btc"@[0] != "eth"@[0]);
    }
    assert("sol"@ != "eth"@ && "sol"@ != "btc"@) by {
        assert("sol"@[0] != "eth"@[0] && "sol"@[0] != "btc"@[0]);
    }
    assert("bnb"@ != "eth"@ && "bnb"@ != "btc"@ && "bnb"@ != "sol"@) by {
        assert("bnb"@[1] != "eth"@[1] && "bnb"@[1] != "btc"@[1] && "bnb"@[0] != "sol"@[0]);
    }
    assert("tron"@.len() == 4 && "kaspa"@.len() == 5 && "eth"@.len() == 3);
    assert("kas"@ != "eth"@ && "kas"@ != "btc"@ && "kas"@ != "sol"@ && "kas"@ != "bnb"@) by {
        assert("kas"@[0] == 'k');
    }
}

/// Upper-casing gives the validator's chain names: the seven names in
/// lower case are upper-cased to the names that
/// [`crate::chains::address_validation::verdict`] knows.
pub proof fn law_chain_names_uppercased()
    ensures
        str_uppercase("eth"@) == "ETH"@,
        str_uppercase("bnb"@) == "BNB"@,
        str_uppercase("btc"@) == "BTC"@,
        str_uppercase("sol"@) == "SOL"@,
        str_uppercase("tron"@) == "TRON"@,
        str_uppercase("kaspa"@) == "KASPA"@,
        str_uppercase("kas"@) == "KAS"@,
{
    reveal_strlit("eth");
    reveal_strlit("ETH");
    reveal_strlit("btc");
    reveal_strlit("BTC");
    reveal_strlit("sol");
    reveal_strlit("SOL");
    reveal_strlit("bnb");
    reveal_strlit("BNB");
    reveal_strlit("tron");
    reveal_strlit("TRON");
    reveal_strlit("kaspa");
    reveal_strlit("KASPA");
    reveal_strlit("kas");
    reveal_strlit("KAS");
    assert(str_uppercase("eth"@) =~= "ETH"@);
    assert(str_uppercase("bnb"@) =~= "BNB"@);
    assert(str_uppercase("btc"@) =~= "BTC"@);
    assert(str_uppercase("sol"@) =~= "SOL"@);
    assert(str_uppercase("tron"@) =~= "TRON"@);
    assert(str_uppercase("kaspa"@) =~= "KASPA"@);
    assert(str_uppercase("kas"@) =~= "KAS"@);
}

/// An address in the format of Ethereum is reported for Ethereum and BNB
/// Chain together, in this order and before any other chain.
pub proof fn law_eth_and_bnb_together(address: Seq<char>)
    requires
        is_eth_address(address),
    ensures
        chains_of(address).len() >= 2,
        chains_of(address)[0] == "eth"@,
        chains_of(address)[1] == "bnb"@,
{
}

} // verus!
