//! Colours written as hex text (`#rgb` or `#rrggbb`), and the text of their
//! channels as the generated scripts print them.

use vstd::prelude::*;

verus! {

/// `s` without its leading `#` characters (all of them, as
/// `trim_start_matches('#')` removes them).
pub open spec fn strip_hashes(s: Seq<char>) -> Seq<char>
    decreases s.len(),
{
    if s.len() > 0 && s[0] == '#' {
        strip_hashes(s.drop_first())
    } else {
        s
    }
}

/// Value of a hexadecimal digit, either case.
pub open spec fn hex_value(c: char) -> Option<nat> {
    if '0' <= c && c <= '9' {
        Some((c as u32 - '0' as u32) as nat)
    } else if 'a' <= c && c <= 'f' {
        Some((c as u32 - 'a' as u32 + 10) as nat)
    } else if 'A' <= c && c <= 'F' {
        Some((c as u32 - 'A' as u32 + 10) as nat)
    } else {
        None
    }
}

/// Every character of `t` is a hexadecimal digit.
pub open spec fn all_hex_digits(t: Seq<char>) -> bool {
    forall|i: int| 0 <= i < t.len() ==> #[trigger] hex_value(t[i]) is Some
}

/// The byte written by the two hex digits `a b`.
pub open spec fn hex_pair(a: char, b: char) -> u8 {
    (16 * hex_value(a)->0 + hex_value(b)->0) as u8
}

/// The three channels of six hex digits read as pairs.
pub open spec fn six_digit_channels(h: Seq<char>) -> (u8, u8, u8) {
    (hex_pair(h[0], h[1]), hex_pair(h[2], h[3]), hex_pair(h[4], h[5]))
}

/// The short form `rgb` spelled out as `rrggbb`.
pub open spec fn expand_short(t: Seq<char>) -> Seq<char> {
    seq![t[0], t[0], t[1], t[1], t[2], t[2]]
}

/// The colour that a hex text denotes: after the leading `#`s, exactly three
/// hex digits (each doubled) or exactly six; anything else has no colour.
pub open spec fn hex_color(s: Seq<char>) -> Option<(u8, u8, u8)> {
    let t = strip_hashes(s);
    if t.len() == 3 && all_hex_digits(t) {
        Some(six_digit_channels(expand_short(t)))
    } else if t.len() == 6 && all_hex_digits(t) {
        Some(six_digit_channels(t))
    } else {
        None
    }
}

proof fn lemma_strip_prefix(s: Seq<char>, i: int)
    requires
        0 <= i <= s.len(),
        forall|j: int| 0 <= j < i ==> s[j] == '#',
    ensures
        strip_hashes(s) == strip_hashes(s.skip(i)),
    decreases i,
{
    if i > 0 {
        lemma_strip_prefix(s.drop_first(), i - 1);
        assert(s.drop_first().skip(i - 1) =~= s.skip(i));
    } else {
        assert(s.skip(0) =~= s);
    }
}

/// `hex` without its leading `#` characters.
fn strip_hashes_exec(hex: &str) -> (r: &str)
    ensures
        r@ == strip_hashes(hex@),
{
    let n = hex.unicode_len();
    let mut i: usize = 0;
    while i < n && hex.get_char(i) == '#'
        invariant
            n == hex@.len(),
            i <= n,
            forall|j: int| 0 <= j < i ==> hex@[j] == '#',
        decreases n - i,
    {
        i = i + 1;
    }
    proof {
        lemma_strip_prefix(hex@, i as int);
    }
    hex.substring_char(i, n)
}

fn hex_value_exec(c: char) -> (r: Option<u32>)
    ensures
        r matches Some(v) ==> hex_value(c) == Some(v as nat),
        r is None ==> hex_value(c) is None,
{
    if '0' <= c && c <= '9' {
        Some(c as u32 - '0' as u32)
    } else if 'a' <= c && c <= 'f' {
        Some(c as u32 - 'a' as u32 + 10)
    } else if 'A' <= c && c <= 'F' {
        Some(c as u32 - 'A' as u32 + 10)
    } else {
        None
    }
}

fn hex_pair_exec(a: char, b: char) -> (r: u8)
    requires
        hex_value(a) is Some,
        hex_value(b) is Some,
    ensures
        r == hex_pair(a, b),
{
    let x = hex_value_exec(a).unwrap();
    let y = hex_value_exec(b).unwrap();
    (16 * x + y) as u8
}

fn all_hex_digits_exec(t: &str) -> (r: bool)
    ensures
        r == all_hex_digits(t@),
{
    let n = t.unicode_len();
    let mut i: usize = 0;
    while i < n
        invariant
            n == t@.len(),
            i <= n,
            forall|j: int| 0 <= j < i ==> #[trigger] hex_value(t@[j]) is Some,
        decreases n - i,
    {
        if hex_value_exec(t.get_char(i)).is_none() {
            return false;
        }
        i = i + 1;
    }
    true
}

/// The channels of a hex colour text (`#rgb` or `#rrggbb`, any number of
/// leading `#`), or `None` where the text is no colour.
pub fn parse_hex_color(hex: &str) -> (r: Option<(u8, u8, u8)>)
    ensures
        r == hex_color(hex@),
{
    let t = strip_hashes_exec(hex);
    let n = t.unicode_len();
    if (n == 3 || n == 6) && all_hex_digits_exec(t) {
        proof {
            assert(hex_value(t@[0]) is Some);
            assert(hex_value(t@[1]) is Some);
            assert(hex_value(t@[2]) is Some);
        }
        if n == 3 {
            let a = t.get_char(0);
            let b = t.get_char(1);
            let c = t.get_char(2);
            assert(seq![a, a, b, b, c, c] =~= expand_short(t@));
            Some((hex_pair_exec(a, a), hex_pair_exec(b, b), hex_pair_exec(c, c)))
        } else {
            proof {
                assert(hex_value(t@[3]) is Some);
                assert(hex_value(t@[4]) is Some);
                assert(hex_value(t@[5]) is Some);
            }
            Some((
                hex_pair_exec(t.get_char(0), t.get_char(1)),
                hex_pair_exec(t.get_char(2), t.get_char(3)),
                hex_pair_exec(t.get_char(4), t.get_char(5)),
            ))
        }
    } else {
        None
    }
}

/// Law: a leading `#` does not change the colour a text denotes.
pub proof fn lemma_hash_prefix_ignored(s: Seq<char>)
    ensures
        hex_color(seq!['#'] + s) == hex_color(s),
{
    let t = seq!['#'] + s;
    assert(t.drop_first() =~= s);
    assert(strip_hashes(t) == strip_hashes(s));
}

/// Law: the short form `#rgb` denotes the same colour as `#rrggbb`.
pub proof fn lemma_short_form_expands(a: char, b: char, c: char)
    requires
        a != '#',
    ensures
        hex_color(seq!['#', a, b, c]) == hex_color(seq!['#', a, a, b, b, c, c]),
{
    let short = seq!['#', a, b, c];
    let long = seq!['#', a, a, b, b, c, c];
    let t = seq![a, b, c];
    let u = seq![a, a, b, b, c, c];
    assert(short.drop_first() =~= t);
    assert(long.drop_first() =~= u);
    assert(strip_hashes(short) == strip_hashes(t));
    assert(strip_hashes(long) == strip_hashes(u));
    {
        assert(strip_hashes(t) == t);
        assert(strip_hashes(u) == u);
        assert(expand_short(t) =~= u);
        assert(all_hex_digits(t) <==> all_hex_digits(u)) by {
            if all_hex_digits(t) {
                assert forall|i: int| 0 <= i < u.len() implies #[trigger] hex_value(u[i]) is Some by {
                    assert(u[i] == t[i / 2]);
                }
            }
            if all_hex_digits(u) {
                assert forall|i: int| 0 <= i < t.len() implies #[trigger] hex_value(t[i]) is Some by {
                    assert(t[i] == u[2 * i]);
                }
            }
        }
    }
}

/// Law: a colour's channels are read from its hex digits in order: for
/// `#rrggbb` red from the first pair, green from the second, blue from the
/// third (each pair as 16 × first digit + second); for `#rgb` each digit
/// stands for a channel, doubled (17 × its value).
pub proof fn lemma_hex_channels_in_order(s: Seq<char>)
    ensures
        ({
            let t = strip_hashes(s);
            t.len() == 6 && all_hex_digits(t) ==> hex_color(s) == Some((
                (16 * hex_value(t[0])->0 + hex_value(t[1])->0) as u8,
                (16 * hex_value(t[2])->0 + hex_value(t[3])->0) as u8,
                (16 * hex_value(t[4])->0 + hex_value(t[5])->0) as u8,
            ))
        }),
        ({
            let t = strip_hashes(s);
            t.len() == 3 && all_hex_digits(t) ==> hex_color(s) == Some((
                (17 * hex_value(t[0])->0) as u8,
                (17 * hex_value(t[1])->0) as u8,
                (17 * hex_value(t[2])->0) as u8,
            ))
        }),
{
}

/// Text of `c / 255` as Rust's `{}` prints an `f64`: the shortest decimal that
/// reads back as the same double, without a trailing `.0`.
pub open spec fn channel_text(c: u8) -> Seq<char> {
    match c {
        0u8 => "0"@,
        1u8 => "0.00392156862745098"@,
        2u8 => "0.00784313725490196"@,
        3u8 => "0.011764705882352941"@,
        4u8 => "0.01568627450980392"@,
        5u8 => "0.0196078431372549"@,
        6u8 => "0.023529411764705882"@,
        7u8 => "0.027450980392156862"@,
        8u8 => "0.03137254901960784"@,
        9u8 => "0.03529411764705882"@,
        10u8 => "0.0392156862745098"@,
        11u8 => "0.043137254901960784"@,
        12u8 => "0.047058823529411764"@,
        13u8 => "0.050980392156862744"@,
        14u8 => "0.054901960784313725"@,
        15u8 => "0.058823529411764705"@,
        16u8 => "0.06274509803921569"@,
        17u8 => "0.06666666666666667"@,
        18u8 => "0.07058823529411765"@,
        19u8 => "0.07450980392156863"@,
        20u8 => "0.0784313725490196"@,
        21u8 => "0.08235294117647059"@,
        22u8 => "0.08627450980392157"@,
        23u8 => "0.09019607843137255"@,
        24u8 => "0.09411764705882353"@,
        25u8 => "0.09803921568627451"@,
        26u8 => "0.10196078431372549"@,
        27u8 => "0.10588235294117647"@,
        28u8 => "0.10980392156862745"@,
        29u8 => "0.11372549019607843"@,
        30u8 => "0.11764705882352941"@,
        31u8 => "0.12156862745098039"@,
        32u8 => "0.12549019607843137"@,
        33u8 => "0.12941176470588237"@,
        34u8 => "0.13333333333333333"@,
        35u8 => "0.13725490196078433"@,
        36u8 => "0.1411764705882353"@,
        37u8 => "0.1450980392156863"@,
        38u8 => "0.14901960784313725"@,
        39u8 => "0.15294117647058825"@,
        40u8 => "0.1568627450980392"@,
        41u8 => "0.1607843137254902"@,
        42u8 => "0.16470588235294117"@,
        43u8 => "0.16862745098039217"@,
        44u8 => "0.17254901960784313"@,
        45u8 => "0.17647058823529413"@,
        46u8 => "0.1803921568627451"@,
        47u8 => "0.1843137254901961"@,
        48u8 => "0.18823529411764706"@,
        49u8 => "0.19215686274509805"@,
        50u8 => "0.19607843137254902"@,
        51u8 => "0.2"@,
        52u8 => "0.20392156862745098"@,
        53u8 => "0.20784313725490197"@,
        54u8 => "0.21176470588235294"@,
        55u8 => "0.21568627450980393"@,
        56u8 => "0.2196078431372549"@,
        57u8 => "0.2235294117647059"@,
        58u8 => "0.22745098039215686"@,
        59u8 => "0.23137254901960785"@,
        60u8 => "0.23529411764705882"@,
        61u8 => "0.23921568627450981"@,
        62u8 => "0.24313725490196078"@,
        63u8 => "0.24705882352941178"@,
        64u8 => "0.25098039215686274"@,
        65u8 => "0.2549019607843137"@,
        66u8 => "0.25882352941176473"@,
        67u8 => "0.2627450980392157"@,
        68u8 => "0.26666666666666666"@,
        69u8 => "0.27058823529411763"@,
        70u8 => "0.27450980392156865"@,
        71u8 => "0.2784313725490196"@,
        72u8 => "0.2823529411764706"@,
        73u8 => "0.28627450980392155"@,
        74u8 => "0.2901960784313726"@,
        75u8 => "0.29411764705882354"@,
        76u8 => "0.2980392156862745"@,
        77u8 => "0.30196078431372547"@,
        78u8 => "0.3058823529411765"@,
        79u8 => "0.30980392156862746"@,
        80u8 => "0.3137254901960784"@,
        81u8 => "0.3176470588235294"@,
        82u8 => "0.3215686274509804"@,
        83u8 => "0.3254901960784314"@,
        84u8 => "0.32941176470588235"@,
        85u8 => "0.3333333333333333"@,
        86u8 => "0.33725490196078434"@,
        87u8 => "0.3411764705882353"@,
        88u8 => "0.34509803921568627"@,
        89u8 => "0.34901960784313724"@,
        90u8 => "0.35294117647058826"@,
        91u8 => "0.3568627450980392"@,
        92u8 => "0.3607843137254902"@,
        93u8 => "0.36470588235294116"@,
        94u8 => "0.3686274509803922"@,
        95u8 => "0.37254901960784315"@,
        96u8 => "0.3764705882352941"@,
        97u8 => "0.3803921568627451"@,
        98u8 => "0.3843137254901961"@,
        99u8 => "0.38823529411764707"@,
        100u8 => "0.39215686274509803"@,
        101u8 => "0.396078431372549"@,
        102u8 => "0.4"@,
        103u8 => "0.403921568627451"@,
        104u8 => "0.40784313725490196"@,
        105u8 => "0.4117647058823529"@,
        106u8 => "0.41568627450980394"@,
        107u8 => "0.4196078431372549"@,
        108u8 => "0.4235294117647059"@,
        109u8 => "0.42745098039215684"@,
        110u8 => "0.43137254901960786"@,
        111u8 => "0.43529411764705883"@,
        112u8 => "0.4392156862745098"@,
        113u8 => "0.44313725490196076"@,
        114u8 => "0.4470588235294118"@,
        115u8 => "0.45098039215686275"@,
        116u8 => "0.4549019607843137"@,
        117u8 => "0.4588235294117647"@,
        118u8 => "0.4627450980392157"@,
        119u8 => "0.4666666666666667"@,
        120u8 => "0.47058823529411764"@,
        121u8 => "0.4745098039215686"@,
        122u8 => "0.47843137254901963"@,
        123u8 => "0.4823529411764706"@,
        124u8 => "0.48627450980392156"@,
        125u8 => "0.49019607843137253"@,
        126u8 => "0.49411764705882355"@,
        127u8 => "0.4980392156862745"@,
        128u8 => "0.5019607843137255"@,
        129u8 => "0.5058823529411764"@,
        130u8 => "0.5098039215686274"@,
        131u8 => "0.5137254901960784"@,
        132u8 => "0.5176470588235295"@,
        133u8 => "0.5215686274509804"@,
        134u8 => "0.5254901960784314"@,
        135u8 => "0.5294117647058824"@,
        136u8 => "0.5333333333333333"@,
        137u8 => "0.5372549019607843"@,
        138u8 => "0.5411764705882353"@,
        139u8 => "0.5450980392156862"@,
        140u8 => "0.5490196078431373"@,
        141u8 => "0.5529411764705883"@,
        142u8 => "0.5568627450980392"@,
        143u8 => "0.5607843137254902"@,
        144u8 => "0.5647058823529412"@,
        145u8 => "0.5686274509803921"@,
        146u8 => "0.5725490196078431"@,
        147u8 => "0.5764705882352941"@,
        148u8 => "0.5803921568627451"@,
        149u8 => "0.5843137254901961"@,
        150u8 => "0.5882352941176471"@,
        151u8 => "0.592156862745098"@,
        152u8 => "0.596078431372549"@,
        153u8 => "0.6"@,
        154u8 => "0.6039215686274509"@,
        155u8 => "0.6078431372549019"@,
        156u8 => "0.611764705882353"@,
        157u8 => "0.615686274509804"@,
        158u8 => "0.6196078431372549"@,
        159u8 => "0.6235294117647059"@,
        160u8 => "0.6274509803921569"@,
        161u8 => "0.6313725490196078"@,
        162u8 => "0.6352941176470588"@,
        163u8 => "0.6392156862745098"@,
        164u8 => "0.6431372549019608"@,
        165u8 => "0.6470588235294118"@,
        166u8 => "0.6509803921568628"@,
        167u8 => "0.6549019607843137"@,
        168u8 => "0.6588235294117647"@,
        169u8 => "0.6627450980392157"@,
        170u8 => "0.6666666666666666"@,
        171u8 => "0.6705882352941176"@,
        172u8 => "0.6745098039215687"@,
        173u8 => "0.6784313725490196"@,
        174u8 => "0.6823529411764706"@,
        175u8 => "0.6862745098039216"@,
        176u8 => "0.6901960784313725"@,
        177u8 => "0.6941176470588235"@,
        178u8 => "0.6980392156862745"@,
        179u8 => "0.7019607843137254"@,
        180u8 => "0.7058823529411765"@,
        181u8 => "0.7098039215686275"@,
        182u8 => "0.7137254901960784"@,
        183u8 => "0.7176470588235294"@,
        184u8 => "0.7215686274509804"@,
        185u8 => "0.7254901960784313"@,
        186u8 => "0.7294117647058823"@,
        187u8 => "0.7333333333333333"@,
        188u8 => "0.7372549019607844"@,
        189u8 => "0.7411764705882353"@,
        190u8 => "0.7450980392156863"@,
        191u8 => "0.7490196078431373"@,
        192u8 => "0.7529411764705882"@,
        193u8 => "0.7568627450980392"@,
        194u8 => "0.7607843137254902"@,
        195u8 => "0.7647058823529411"@,
        196u8 => "0.7686274509803922"@,
        197u8 => "0.7725490196078432"@,
        198u8 => "0.7764705882352941"@,
        199u8 => "0.7803921568627451"@,
        200u8 => "0.7843137254901961"@,
        201u8 => "0.788235294117647"@,
        202u8 => "0.792156862745098"@,
        203u8 => "0.796078431372549"@,
        204u8 => "0.8"@,
        205u8 => "0.803921568627451"@,
        206u8 => "0.807843137254902"@,
        207u8 => "0.8117647058823529"@,
        208u8 => "0.8156862745098039"@,
        209u8 => "0.8196078431372549"@,
        210u8 => "0.8235294117647058"@,
        211u8 => "0.8274509803921568"@,
        212u8 => "0.8313725490196079"@,
        213u8 => "0.8352941176470589"@,
        214u8 => "0.8392156862745098"@,
        215u8 => "0.8431372549019608"@,
        216u8 => "0.8470588235294118"@,
        217u8 => "0.8509803921568627"@,
        218u8 => "0.8549019607843137"@,
        219u8 => "0.8588235294117647"@,
        220u8 => "0.8627450980392157"@,
        221u8 => "0.8666666666666667"@,
        222u8 => "0.8705882352941177"@,
        223u8 => "0.8745098039215686"@,
        224u8 => "0.8784313725490196"@,
        225u8 => "0.8823529411764706"@,
        226u8 => "0.8862745098039215"@,
        227u8 => "0.8901960784313725"@,
        228u8 => "0.8941176470588236"@,
        229u8 => "0.8980392156862745"@,
        230u8 => "0.9019607843137255"@,
        231u8 => "0.9058823529411765"@,
        232u8 => "0.9098039215686274"@,
        233u8 => "0.9137254901960784"@,
        234u8 => "0.9176470588235294"@,
        235u8 => "0.9215686274509803"@,
        236u8 => "0.9254901960784314"@,
        237u8 => "0.9294117647058824"@,
        238u8 => "0.9333333333333333"@,
        239u8 => "0.9372549019607843"@,
        240u8 => "0.9411764705882353"@,
        241u8 => "0.9450980392156862"@,
        242u8 => "0.9490196078431372"@,
        243u8 => "0.9529411764705882"@,
        244u8 => "0.9568627450980393"@,
        245u8 => "0.9607843137254902"@,
        246u8 => "0.9647058823529412"@,
        247u8 => "0.9686274509803922"@,
        248u8 => "0.9725490196078431"@,
        249u8 => "0.9764705882352941"@,
        250u8 => "0.9803921568627451"@,
        251u8 => "0.984313725490196"@,
        252u8 => "0.9882352941176471"@,
        253u8 => "0.9921568627450981"@,
        254u8 => "0.996078431372549"@,
        255u8 => "1"@,
    }
}

/// The text of channel value `c` in a script colour, as `channel_text` gives it.
pub fn channel_str(c: u8) -> (r: &'static str)
    ensures
        r@ == channel_text(c),
{
    match c {
        0u8 => "0",
        1u8 => "0.00392156862745098",
        2u8 => "0.00784313725490196",
        3u8 => "0.011764705882352941",
        4u8 => "0.01568627450980392",
        5u8 => "0.0196078431372549",
        6u8 => "0.023529411764705882",
        7u8 => "0.027450980392156862",
        8u8 => "0.03137254901960784",
        9u8 => "0.03529411764705882",
        10u8 => "0.0392156862745098",
        11u8 => "0.043137254901960784",
        12u8 => "0.047058823529411764",
        13u8 => "0.050980392156862744",
        14u8 => "0.054901960784313725",
        15u8 => "0.058823529411764705",
        16u8 => "0.06274509803921569",
        17u8 => "0.06666666666666667",
        18u8 => "0.07058823529411765",
        19u8 => "0.07450980392156863",
        20u8 => "0.0784313725490196",
        21u8 => "0.08235294117647059",
        22u8 => "0.08627450980392157",
        23u8 => "0.09019607843137255",
        24u8 => "0.09411764705882353",
        25u8 => "0.09803921568627451",
        26u8 => "0.10196078431372549",
        27u8 => "0.10588235294117647",
        28u8 => "0.10980392156862745",
        29u8 => "0.11372549019607843",
        30u8 => "0.11764705882352941",
        31u8 => "0.12156862745098039",
        32u8 => "0.12549019607843137",
        33u8 => "0.12941176470588237",
        34u8 => "0.13333333333333333",
        35u8 => "0.13725490196078433",
        36u8 => "0.1411764705882353",
        37u8 => "0.1450980392156863",
        38u8 => "0.14901960784313725",
        39u8 => "0.15294117647058825",
        40u8 => "0.1568627450980392",
        41u8 => "0.1607843137254902",
        42u8 => "0.16470588235294117",
        43u8 => "0.16862745098039217",
        44u8 => "0.17254901960784313",
        45u8 => "0.17647058823529413",
        46u8 => "0.1803921568627451",
        47u8 => "0.1843137254901961",
        48u8 => "0.18823529411764706",
        49u8 => "0.19215686274509805",
        50u8 => "0.19607843137254902",
        51u8 => "0.2",
        52u8 => "0.20392156862745098",
        53u8 => "0.20784313725490197",
        54u8 => "0.21176470588235294",
        55u8 => "0.21568627450980393",
        56u8 => "0.2196078431372549",
        57u8 => "0.2235294117647059",
        58u8 => "0.22745098039215686",
        59u8 => "0.23137254901960785",
        60u8 => "0.23529411764705882",
        61u8 => "0.23921568627450981",
        62u8 => "0.24313725490196078",
        63u8 => "0.24705882352941178",
        64u8 => "0.25098039215686274",
        65u8 => "0.2549019607843137",
        66u8 => "0.25882352941176473",
        67u8 => "0.2627450980392157",
        68u8 => "0.26666666666666666",
        69u8 => "0.27058823529411763",
        70u8 => "0.27450980392156865",
        71u8 => "0.2784313725490196",
        72u8 => "0.2823529411764706",
        73u8 => "0.28627450980392155",
        74u8 => "0.2901960784313726",
        75u8 => "0.29411764705882354",
        76u8 => "0.2980392156862745",
        77u8 => "0.30196078431372547",
        78u8 => "0.3058823529411765",
        79u8 => "0.30980392156862746",
        80u8 => "0.3137254901960784",
        81u8 => "0.3176470588235294",
        82u8 => "0.3215686274509804",
        83u8 => "0.3254901960784314",
        84u8 => "0.32941176470588235",
        85u8 => "0.3333333333333333",
        86u8 => "0.33725490196078434",
        87u8 => "0.3411764705882353",
        88u8 => "0.34509803921568627",
        89u8 => "0.34901960784313724",
        90u8 => "0.35294117647058826",
        91u8 => "0.3568627450980392",
        92u8 => "0.3607843137254902",
        93u8 => "0.36470588235294116",
        94u8 => "0.3686274509803922",
        95u8 => "0.37254901960784315",
        96u8 => "0.3764705882352941",
        97u8 => "0.3803921568627451",
        98u8 => "0.3843137254901961",
        99u8 => "0.38823529411764707",
        100u8 => "0.39215686274509803",
        101u8 => "0.396078431372549",
        102u8 => "0.4",
        103u8 => "0.403921568627451",
        104u8 => "0.40784313725490196",
        105u8 => "0.4117647058823529",
        106u8 => "0.41568627450980394",
        107u8 => "0.4196078431372549",
        108u8 => "0.4235294117647059",
        109u8 => "0.42745098039215684",
        110u8 => "0.43137254901960786",
        111u8 => "0.43529411764705883",
        112u8 => "0.4392156862745098",
        113u8 => "0.44313725490196076",
        114u8 => "0.4470588235294118",
        115u8 => "0.45098039215686275",
        116u8 => "0.4549019607843137",
        117u8 => "0.4588235294117647",
        118u8 => "0.4627450980392157",
        119u8 => "0.4666666666666667",
        120u8 => "0.47058823529411764",
        121u8 => "0.4745098039215686",
        122u8 => "0.47843137254901963",
        123u8 => "0.4823529411764706",
        124u8 => "0.48627450980392156",
        125u8 => "0.49019607843137253",
        126u8 => "0.49411764705882355",
        127u8 => "0.4980392156862745",
        128u8 => "0.5019607843137255",
        129u8 => "0.5058823529411764",
        130u8 => "0.5098039215686274",
        131u8 => "0.5137254901960784",
        132u8 => "0.5176470588235295",
        133u8 => "0.5215686274509804",
        134u8 => "0.5254901960784314",
        135u8 => "0.5294117647058824",
        136u8 => "0.5333333333333333",
        137u8 => "0.5372549019607843",
        138u8 => "0.5411764705882353",
        139u8 => "0.5450980392156862",
        140u8 => "0.5490196078431373",
        141u8 => "0.5529411764705883",
        142u8 => "0.5568627450980392",
        143u8 => "0.5607843137254902",
        144u8 => "0.5647058823529412",
        145u8 => "0.5686274509803921",
        146u8 => "0.5725490196078431",
        147u8 => "0.5764705882352941",
        148u8 => "0.5803921568627451",
        149u8 => "0.5843137254901961",
        150u8 => "0.5882352941176471",
        151u8 => "0.592156862745098",
        152u8 => "0.596078431372549",
        153u8 => "0.6",
        154u8 => "0.6039215686274509",
        155u8 => "0.6078431372549019",
        156u8 => "0.611764705882353",
        157u8 => "0.615686274509804",
        158u8 => "0.6196078431372549",
        159u8 => "0.6235294117647059",
        160u8 => "0.6274509803921569",
        161u8 => "0.6313725490196078",
        162u8 => "0.6352941176470588",
        163u8 => "0.6392156862745098",
        164u8 => "0.6431372549019608",
        165u8 => "0.6470588235294118",
        166u8 => "0.6509803921568628",
        167u8 => "0.6549019607843137",
        168u8 => "0.6588235294117647",
        169u8 => "0.6627450980392157",
        170u8 => "0.6666666666666666",
        171u8 => "0.6705882352941176",
        172u8 => "0.6745098039215687",
        173u8 => "0.6784313725490196",
        174u8 => "0.6823529411764706",
        175u8 => "0.6862745098039216",
        176u8 => "0.6901960784313725",
        177u8 => "0.6941176470588235",
        178u8 => "0.6980392156862745",
        179u8 => "0.7019607843137254",
        180u8 => "0.7058823529411765",
        181u8 => "0.7098039215686275",
        182u8 => "0.7137254901960784",
        183u8 => "0.7176470588235294",
        184u8 => "0.7215686274509804",
        185u8 => "0.7254901960784313",
        186u8 => "0.7294117647058823",
        187u8 => "0.7333333333333333",
        188u8 => "0.7372549019607844",
        189u8 => "0.7411764705882353",
        190u8 => "0.7450980392156863",
        191u8 => "0.7490196078431373",
        192u8 => "0.7529411764705882",
        193u8 => "0.7568627450980392",
        194u8 => "0.7607843137254902",
        195u8 => "0.7647058823529411",
        196u8 => "0.7686274509803922",
        197u8 => "0.7725490196078432",
        198u8 => "0.7764705882352941",
        199u8 => "0.7803921568627451",
        200u8 => "0.7843137254901961",
        201u8 => "0.788235294117647",
        202u8 => "0.792156862745098",
        203u8 => "0.796078431372549",
        204u8 => "0.8",
        205u8 => "0.803921568627451",
        206u8 => "0.807843137254902",
        207u8 => "0.8117647058823529",
        208u8 => "0.8156862745098039",
        209u8 => "0.8196078431372549",
        210u8 => "0.8235294117647058",
        211u8 => "0.8274509803921568",
        212u8 => "0.8313725490196079",
        213u8 => "0.8352941176470589",
        214u8 => "0.8392156862745098",
        215u8 => "0.8431372549019608",
        216u8 => "0.8470588235294118",
        217u8 => "0.8509803921568627",
        218u8 => "0.8549019607843137",
        219u8 => "0.8588235294117647",
        220u8 => "0.8627450980392157",
        221u8 => "0.8666666666666667",
        222u8 => "0.8705882352941177",
        223u8 => "0.8745098039215686",
        224u8 => "0.8784313725490196",
        225u8 => "0.8823529411764706",
        226u8 => "0.8862745098039215",
        227u8 => "0.8901960784313725",
        228u8 => "0.8941176470588236",
        229u8 => "0.8980392156862745",
        230u8 => "0.9019607843137255",
        231u8 => "0.9058823529411765",
        232u8 => "0.9098039215686274",
        233u8 => "0.9137254901960784",
        234u8 => "0.9176470588235294",
        235u8 => "0.9215686274509803",
        236u8 => "0.9254901960784314",
        237u8 => "0.9294117647058824",
        238u8 => "0.9333333333333333",
        239u8 => "0.9372549019607843",
        240u8 => "0.9411764705882353",
        241u8 => "0.9450980392156862",
        242u8 => "0.9490196078431372",
        243u8 => "0.9529411764705882",
        244u8 => "0.9568627450980393",
        245u8 => "0.9607843137254902",
        246u8 => "0.9647058823529412",
        247u8 => "0.9686274509803922",
        248u8 => "0.9725490196078431",
        249u8 => "0.9764705882352941",
        250u8 => "0.9803921568627451",
        251u8 => "0.984313725490196",
        252u8 => "0.9882352941176471",
        253u8 => "0.9921568627450981",
        254u8 => "0.996078431372549",
        255u8 => "1",
    }
}

} // verus!
