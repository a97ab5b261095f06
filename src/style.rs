//! Colours and stroke positions of Google Maps shapes.

use crate::google::JavaScript;
use crate::text::{decimal, hex_byte, push_decimal, push_hex_byte};
use vstd::prelude::*;

verus! {

/// A colour, given by its components or by one of the CSS basic names.
#[derive(Clone, Copy, Debug, PartialEq, Eq, Structural)]
pub enum Color {
    RGB(u8, u8, u8),
    RGBA(u8, u8, u8, u8),
    /// Hue in degrees; saturation and lightness as fractions of 255.
    HSL(u16, u8, u8),
    /// Hue in degrees; saturation, lightness and alpha as fractions of 255.
    HSLA(u16, u8, u8, u8),
    Black,
    Silver,
    Gray,
    White,
    Maroon,
    Red,
    Purple,
    Fuchsia,
    Green,
    Lime,
    Olive,
    Yellow,
    Navy,
    Blue,
    Teal,
    Aqua,
}

/// A fraction of 255 as a percentage, `100 * v / 255` computed in `f64`
/// and written in its shortest form that reads back as the same `f64`:
/// whole values without a point.
pub open spec fn percent_text(v: u8) -> Seq<char> {
    match v {
        0 => "0"@,
        1 => "0.39215686274509803"@,
        2 => "0.7843137254901961"@,
        3 => "1.1764705882352942"@,
        4 => "1.5686274509803921"@,
        5 => "1.9607843137254901"@,
        6 => "2.3529411764705883"@,
        7 => "2.7450980392156863"@,
        8 => "3.1372549019607843"@,
        9 => "3.5294117647058822"@,
        10 => "3.9215686274509802"@,
        11 => "4.313725490196078"@,
        12 => "4.705882352941177"@,
        13 => "5.098039215686274"@,
        14 => "5.490196078431373"@,
        15 => "5.882352941176471"@,
        16 => "6.2745098039215685"@,
        17 => "6.666666666666667"@,
        18 => "7.0588235294117645"@,
        19 => "7.450980392156863"@,
        20 => "7.8431372549019605"@,
        21 => "8.235294117647058"@,
        22 => "8.627450980392156"@,
        23 => "9.019607843137255"@,
        24 => "9.411764705882353"@,
        25 => "9.803921568627452"@,
        26 => "10.196078431372548"@,
        27 => "10.588235294117647"@,
        28 => "10.980392156862745"@,
        29 => "11.372549019607844"@,
        30 => "11.764705882352942"@,
        31 => "12.156862745098039"@,
        32 => "12.549019607843137"@,
        33 => "12.941176470588236"@,
        34 => "13.333333333333334"@,
        35 => "13.72549019607843"@,
        36 => "14.117647058823529"@,
        37 => "14.509803921568627"@,
        38 => "14.901960784313726"@,
        39 => "15.294117647058824"@,
        40 => "15.686274509803921"@,
        41 => "16.07843137254902"@,
        42 => "16.470588235294116"@,
        43 => "16.862745098039216"@,
        44 => "17.254901960784313"@,
        45 => "17.647058823529413"@,
        46 => "18.03921568627451"@,
        47 => "18.431372549019606"@,
        48 => "18.823529411764707"@,
        49 => "19.215686274509803"@,
        50 => "19.607843137254903"@,
        51 => "20"@,
        52 => "20.392156862745097"@,
        53 => "20.784313725490197"@,
        54 => "21.176470588235293"@,
        55 => "21.568627450980394"@,
        56 => "21.96078431372549"@,
        57 => "22.352941176470587"@,
        58 => "22.745098039215687"@,
        59 => "23.137254901960784"@,
        60 => "23.529411764705884"@,
        61 => "23.92156862745098"@,
        62 => "24.313725490196077"@,
        63 => "24.705882352941178"@,
        64 => "25.098039215686274"@,
        65 => "25.49019607843137"@,
        66 => "25.88235294117647"@,
        67 => "26.274509803921568"@,
        68 => "26.666666666666668"@,
        69 => "27.058823529411764"@,
        70 => "27.45098039215686"@,
        71 => "27.84313725490196"@,
        72 => "28.235294117647058"@,
        73 => "28.627450980392158"@,
        74 => "29.019607843137255"@,
        75 => "29.41176470588235"@,
        76 => "29.80392156862745"@,
        77 => "30.19607843137255"@,
        78 => "30.58823529411765"@,
        79 => "30.980392156862745"@,
        80 => "31.372549019607842"@,
        81 => "31.764705882352942"@,
        82 => "32.15686274509804"@,
        83 => "32.549019607843135"@,
        84 => "32.94117647058823"@,
        85 => "33.333333333333336"@,
        86 => "33.72549019607843"@,
        87 => "34.11764705882353"@,
        88 => "34.509803921568626"@,
        89 => "34.90196078431372"@,
        90 => "35.294117647058826"@,
        91 => "35.68627450980392"@,
        92 => "36.07843137254902"@,
        93 => "36.470588235294116"@,
        94 => "36.86274509803921"@,
        95 => "37.254901960784316"@,
        96 => "37.64705882352941"@,
        97 => "38.03921568627451"@,
        98 => "38.431372549019606"@,
        99 => "38.8235294117647"@,
        100 => "39.21568627450981"@,
        101 => "39.6078431372549"@,
        102 => "40"@,
        103 => "40.3921568627451"@,
        104 => "40.78431372549019"@,
        105 => "41.1764705882353"@,
        106 => "41.568627450980394"@,
        107 => "41.96078431372549"@,
        108 => "42.35294117647059"@,
        109 => "42.745098039215684"@,
        110 => "43.13725490196079"@,
        111 => "43.529411764705884"@,
        112 => "43.92156862745098"@,
        113 => "44.31372549019608"@,
        114 => "44.705882352941174"@,
        115 => "45.09803921568628"@,
        116 => "45.490196078431374"@,
        117 => "45.88235294117647"@,
        118 => "46.27450980392157"@,
        119 => "46.666666666666664"@,
        120 => "47.05882352941177"@,
        121 => "47.450980392156865"@,
        122 => "47.84313725490196"@,
        123 => "48.23529411764706"@,
        124 => "48.627450980392155"@,
        125 => "49.01960784313726"@,
        126 => "49.411764705882355"@,
        127 => "49.80392156862745"@,
        128 => "50.19607843137255"@,
        129 => "50.588235294117645"@,
        130 => "50.98039215686274"@,
        131 => "51.372549019607845"@,
        132 => "51.76470588235294"@,
        133 => "52.15686274509804"@,
        134 => "52.549019607843135"@,
        135 => "52.94117647058823"@,
        136 => "53.333333333333336"@,
        137 => "53.72549019607843"@,
        138 => "54.11764705882353"@,
        139 => "54.509803921568626"@,
        140 => "54.90196078431372"@,
        141 => "55.294117647058826"@,
        142 => "55.68627450980392"@,
        143 => "56.07843137254902"@,
        144 => "56.470588235294116"@,
        145 => "56.86274509803921"@,
        146 => "57.254901960784316"@,
        147 => "57.64705882352941"@,
        148 => "58.03921568627451"@,
        149 => "58.431372549019606"@,
        150 => "58.8235294117647"@,
        151 => "59.21568627450981"@,
        152 => "59.6078431372549"@,
        153 => "60"@,
        154 => "60.3921568627451"@,
        155 => "60.78431372549019"@,
        156 => "61.1764705882353"@,
        157 => "61.568627450980394"@,
        158 => "61.96078431372549"@,
        159 => "62.35294117647059"@,
        160 => "62.745098039215684"@,
        161 => "63.13725490196079"@,
        162 => "63.529411764705884"@,
        163 => "63.92156862745098"@,
        164 => "64.31372549019608"@,
        165 => "64.70588235294117"@,
        166 => "65.09803921568627"@,
        167 => "65.49019607843137"@,
        168 => "65.88235294117646"@,
        169 => "66.27450980392157"@,
        170 => "66.66666666666667"@,
        171 => "67.05882352941177"@,
        172 => "67.45098039215686"@,
        173 => "67.84313725490196"@,
        174 => "68.23529411764706"@,
        175 => "68.62745098039215"@,
        176 => "69.01960784313725"@,
        177 => "69.41176470588235"@,
        178 => "69.80392156862744"@,
        179 => "70.19607843137256"@,
        180 => "70.58823529411765"@,
        181 => "70.98039215686275"@,
        182 => "71.37254901960785"@,
        183 => "71.76470588235294"@,
        184 => "72.15686274509804"@,
        185 => "72.54901960784314"@,
        186 => "72.94117647058823"@,
        187 => "73.33333333333333"@,
        188 => "73.72549019607843"@,
        189 => "74.11764705882354"@,
        190 => "74.50980392156863"@,
        191 => "74.90196078431373"@,
        192 => "75.29411764705883"@,
        193 => "75.68627450980392"@,
        194 => "76.07843137254902"@,
        195 => "76.47058823529412"@,
        196 => "76.86274509803921"@,
        197 => "77.25490196078431"@,
        198 => "77.6470588235294"@,
        199 => "78.03921568627452"@,
        200 => "78.43137254901961"@,
        201 => "78.82352941176471"@,
        202 => "79.2156862745098"@,
        203 => "79.6078431372549"@,
        204 => "80"@,
        205 => "80.3921568627451"@,
        206 => "80.7843137254902"@,
        207 => "81.17647058823529"@,
        208 => "81.56862745098039"@,
        209 => "81.96078431372548"@,
        210 => "82.3529411764706"@,
        211 => "82.74509803921569"@,
        212 => "83.13725490196079"@,
        213 => "83.52941176470588"@,
        214 => "83.92156862745098"@,
        215 => "84.31372549019608"@,
        216 => "84.70588235294117"@,
        217 => "85.09803921568627"@,
        218 => "85.49019607843137"@,
        219 => "85.88235294117646"@,
        220 => "86.27450980392157"@,
        221 => "86.66666666666667"@,
        222 => "87.05882352941177"@,
        223 => "87.45098039215686"@,
        224 => "87.84313725490196"@,
        225 => "88.23529411764706"@,
        226 => "88.62745098039215"@,
        227 => "89.01960784313725"@,
        228 => "89.41176470588235"@,
        229 => "89.80392156862744"@,
        230 => "90.19607843137256"@,
        231 => "90.58823529411765"@,
        232 => "90.98039215686275"@,
        233 => "91.37254901960785"@,
        234 => "91.76470588235294"@,
        235 => "92.15686274509804"@,
        236 => "92.54901960784314"@,
        237 => "92.94117647058823"@,
        238 => "93.33333333333333"@,
        239 => "93.72549019607843"@,
        240 => "94.11764705882354"@,
        241 => "94.50980392156863"@,
        242 => "94.90196078431373"@,
        243 => "95.29411764705883"@,
        244 => "95.68627450980392"@,
        245 => "96.07843137254902"@,
        246 => "96.47058823529412"@,
        247 => "96.86274509803921"@,
        248 => "97.25490196078431"@,
        249 => "97.6470588235294"@,
        250 => "98.03921568627452"@,
        251 => "98.43137254901961"@,
        252 => "98.82352941176471"@,
        253 => "99.2156862745098"@,
        254 => "99.6078431372549"@,
        _ => "100"@,
    }
}

/// The percentage text of `v`, a fraction of 255.
pub fn percent_str(v: u8) -> (r: &'static str)
    ensures
        r@ == percent_text(v),
{
    match v {
        0 => "0",
        1 => "0.39215686274509803",
        2 => "0.7843137254901961",
        3 => "1.1764705882352942",
        4 => "1.5686274509803921",
        5 => "1.9607843137254901",
        6 => "2.3529411764705883",
        7 => "2.7450980392156863",
        8 => "3.1372549019607843",
        9 => "3.5294117647058822",
        10 => "3.9215686274509802",
        11 => "4.313725490196078",
        12 => "4.705882352941177",
        13 => "5.098039215686274",
        14 => "5.490196078431373",
        15 => "5.882352941176471",
        16 => "6.2745098039215685",
        17 => "6.666666666666667",
        18 => "7.0588235294117645",
        19 => "7.450980392156863",
        20 => "7.8431372549019605",
        21 => "8.235294117647058",
        22 => "8.627450980392156",
        23 => "9.019607843137255",
        24 => "9.411764705882353",
        25 => "9.803921568627452",
        26 => "10.196078431372548",
        27 => "10.588235294117647",
        28 => "10.980392156862745",
        29 => "11.372549019607844",
        30 => "11.764705882352942",
        31 => "12.156862745098039",
        32 => "12.549019607843137",
        33 => "12.941176470588236",
        34 => "13.333333333333334",
        35 => "13.72549019607843",
        36 => "14.117647058823529",
        37 => "14.509803921568627",
        38 => "14.901960784313726",
        39 => "15.294117647058824",
        40 => "15.686274509803921",
        41 => "16.07843137254902",
        42 => "16.470588235294116",
        43 => "16.862745098039216",
        44 => "17.254901960784313",
        45 => "17.647058823529413",
        46 => "18.03921568627451",
        47 => "18.431372549019606",
        48 => "18.823529411764707",
        49 => "19.215686274509803",
        50 => "19.607843137254903",
        51 => "20",
        52 => "20.392156862745097",
        53 => "20.784313725490197",
        54 => "21.176470588235293",
        55 => "21.568627450980394",
        56 => "21.96078431372549",
        57 => "22.352941176470587",
        58 => "22.745098039215687",
        59 => "23.137254901960784",
        60 => "23.529411764705884",
        61 => "23.92156862745098",
        62 => "24.313725490196077",
        63 => "24.705882352941178",
        64 => "25.098039215686274",
        65 => "25.49019607843137",
        66 => "25.88235294117647",
        67 => "26.274509803921568",
        68 => "26.666666666666668",
        69 => "27.058823529411764",
        70 => "27.45098039215686",
        71 => "27.84313725490196",
        72 => "28.235294117647058",
        73 => "28.627450980392158",
        74 => "29.019607843137255",
        75 => "29.41176470588235",
        76 => "29.80392156862745",
        77 => "30.19607843137255",
        78 => "30.58823529411765",
        79 => "30.980392156862745",
        80 => "31.372549019607842",
        81 => "31.764705882352942",
        82 => "32.15686274509804",
        83 => "32.549019607843135",
        84 => "32.94117647058823",
        85 => "33.333333333333336",
        86 => "33.72549019607843",
        87 => "34.11764705882353",
        88 => "34.509803921568626",
        89 => "34.90196078431372",
        90 => "35.294117647058826",
        91 => "35.68627450980392",
        92 => "36.07843137254902",
        93 => "36.470588235294116",
        94 => "36.86274509803921",
        95 => "37.254901960784316",
        96 => "37.64705882352941",
        97 => "38.03921568627451",
        98 => "38.431372549019606",
        99 => "38.8235294117647",
        100 => "39.21568627450981",
        101 => "39.6078431372549",
        102 => "40",
        103 => "40.3921568627451",
        104 => "40.78431372549019",
        105 => "41.1764705882353",
        106 => "41.568627450980394",
        107 => "41.96078431372549",
        108 => "42.35294117647059",
        109 => "42.745098039215684",
        110 => "43.13725490196079",
        111 => "43.529411764705884",
        112 => "43.92156862745098",
        113 => "44.31372549019608",
        114 => "44.705882352941174",
        115 => "45.09803921568628",
        116 => "45.490196078431374",
        117 => "45.88235294117647",
        118 => "46.27450980392157",
        119 => "46.666666666666664",
        120 => "47.05882352941177",
        121 => "47.450980392156865",
        122 => "47.84313725490196",
        123 => "48.23529411764706",
        124 => "48.627450980392155",
        125 => "49.01960784313726",
        126 => "49.411764705882355",
        127 => "49.80392156862745",
        128 => "50.19607843137255",
        129 => "50.588235294117645",
        130 => "50.98039215686274",
        131 => "51.372549019607845",
        132 => "51.76470588235294",
        133 => "52.15686274509804",
        134 => "52.549019607843135",
        135 => "52.94117647058823",
        136 => "53.333333333333336",
        137 => "53.72549019607843",
        138 => "54.11764705882353",
        139 => "54.509803921568626",
        140 => "54.90196078431372",
        141 => "55.294117647058826",
        142 => "55.68627450980392",
        143 => "56.07843137254902",
        144 => "56.470588235294116",
        145 => "56.86274509803921",
        146 => "57.254901960784316",
        147 => "57.64705882352941",
        148 => "58.03921568627451",
        149 => "58.431372549019606",
        150 => "58.8235294117647",
        151 => "59.21568627450981",
        152 => "59.6078431372549",
        153 => "60",
        154 => "60.3921568627451",
        155 => "60.78431372549019",
        156 => "61.1764705882353",
        157 => "61.568627450980394",
        158 => "61.96078431372549",
        159 => "62.35294117647059",
        160 => "62.745098039215684",
        161 => "63.13725490196079",
        162 => "63.529411764705884",
        163 => "63.92156862745098",
        164 => "64.31372549019608",
        165 => "64.70588235294117",
        166 => "65.09803921568627",
        167 => "65.49019607843137",
        168 => "65.88235294117646",
        169 => "66.27450980392157",
        170 => "66.66666666666667",
        171 => "67.05882352941177",
        172 => "67.45098039215686",
        173 => "67.84313725490196",
        174 => "68.23529411764706",
        175 => "68.62745098039215",
        176 => "69.01960784313725",
        177 => "69.41176470588235",
        178 => "69.80392156862744",
        179 => "70.19607843137256",
        180 => "70.58823529411765",
        181 => "70.98039215686275",
        182 => "71.37254901960785",
        183 => "71.76470588235294",
        184 => "72.15686274509804",
        185 => "72.54901960784314",
        186 => "72.94117647058823",
        187 => "73.33333333333333",
        188 => "73.72549019607843",
        189 => "74.11764705882354",
        190 => "74.50980392156863",
        191 => "74.90196078431373",
        192 => "75.29411764705883",
        193 => "75.68627450980392",
        194 => "76.07843137254902",
        195 => "76.47058823529412",
        196 => "76.86274509803921",
        197 => "77.25490196078431",
        198 => "77.6470588235294",
        199 => "78.03921568627452",
        200 => "78.43137254901961",
        201 => "78.82352941176471",
        202 => "79.2156862745098",
        203 => "79.6078431372549",
        204 => "80",
        205 => "80.3921568627451",
        206 => "80.7843137254902",
        207 => "81.17647058823529",
        208 => "81.56862745098039",
        209 => "81.96078431372548",
        210 => "82.3529411764706",
        211 => "82.74509803921569",
        212 => "83.13725490196079",
        213 => "83.52941176470588",
        214 => "83.92156862745098",
        215 => "84.31372549019608",
        216 => "84.70588235294117",
        217 => "85.09803921568627",
        218 => "85.49019607843137",
        219 => "85.88235294117646",
        220 => "86.27450980392157",
        221 => "86.66666666666667",
        222 => "87.05882352941177",
        223 => "87.45098039215686",
        224 => "87.84313725490196",
        225 => "88.23529411764706",
        226 => "88.62745098039215",
        227 => "89.01960784313725",
        228 => "89.41176470588235",
        229 => "89.80392156862744",
        230 => "90.19607843137256",
        231 => "90.58823529411765",
        232 => "90.98039215686275",
        233 => "91.37254901960785",
        234 => "91.76470588235294",
        235 => "92.15686274509804",
        236 => "92.54901960784314",
        237 => "92.94117647058823",
        238 => "93.33333333333333",
        239 => "93.72549019607843",
        240 => "94.11764705882354",
        241 => "94.50980392156863",
        242 => "94.90196078431373",
        243 => "95.29411764705883",
        244 => "95.68627450980392",
        245 => "96.07843137254902",
        246 => "96.47058823529412",
        247 => "96.86274509803921",
        248 => "97.25490196078431",
        249 => "97.6470588235294",
        250 => "98.03921568627452",
        251 => "98.43137254901961",
        252 => "98.82352941176471",
        253 => "99.2156862745098",
        254 => "99.6078431372549",
        _ => "100",
    }
}

/// The CSS name of a named colour, lower case.
pub open spec fn color_name(c: Color) -> Seq<char> {
    match c {
        Color::Black => "black"@,
        Color::Silver => "silver"@,
        Color::Gray => "gray"@,
        Color::White => "white"@,
        Color::Maroon => "maroon"@,
        Color::Red => "red"@,
        Color::Purple => "purple"@,
        Color::Fuchsia => "fuchsia"@,
        Color::Green => "green"@,
        Color::Lime => "lime"@,
        Color::Olive => "olive"@,
        Color::Yellow => "yellow"@,
        Color::Navy => "navy"@,
        Color::Blue => "blue"@,
        Color::Teal => "teal"@,
        Color::Aqua => "aqua"@,
        _ => Seq::empty(),
    }
}

fn color_name_str(c: &Color) -> (r: &'static str)
    ensures
        r@ == color_name(*c),
{
    match c {
        Color::Black => "black",
        Color::Silver => "silver",
        Color::Gray => "gray",
        Color::White => "white",
        Color::Maroon => "maroon",
        Color::Red => "red",
        Color::Purple => "purple",
        Color::Fuchsia => "fuchsia",
        Color::Green => "green",
        Color::Lime => "lime",
        Color::Olive => "olive",
        Color::Yellow => "yellow",
        Color::Navy => "navy",
        Color::Blue => "blue",
        Color::Teal => "teal",
        Color::Aqua => "aqua",
        _ => {
            proof {
                reveal_strlit("");
            }
            ""
        },
    }
}

/// The CSS text of a colour, without quotes.
pub open spec fn css_color(c: Color) -> Seq<char> {
    match c {
        Color::RGB(r, g, b) => "#"@ + hex_byte(r) + hex_byte(g) + hex_byte(b),
        Color::RGBA(r, g, b, a) => "#"@ + hex_byte(r) + hex_byte(g) + hex_byte(b) + hex_byte(a),
        Color::HSL(h, s, l) => "hsl("@ + decimal(h as nat) + ", "@ + percent_text(s) + "%, "@
            + percent_text(l) + "%)"@,
        Color::HSLA(h, s, l, a) => "hsla("@ + decimal(h as nat) + ", "@ + percent_text(s)
            + "%, "@ + percent_text(l) + "%, "@ + percent_text(a) + "%)"@,
        _ => color_name(c),
    }
}

/// A colour is a string literal of its CSS text.
impl JavaScript for Color {
    open spec fn js(&self) -> Seq<char> {
        "\""@ + css_color(*self) + "\""@
    }

    fn fmt_js(&self, out: &mut String) {
        let ghost start = old(out)@;
        out.append("\"");
        match *self {
            Color::RGB(r, g, b) => {
                out.append("#");
                push_hex_byte(out, r);
                push_hex_byte(out, g);
                push_hex_byte(out, b);
            },
            Color::RGBA(r, g, b, a) => {
                out.append("#");
                push_hex_byte(out, r);
                push_hex_byte(out, g);
                push_hex_byte(out, b);
                push_hex_byte(out, a);
            },
            Color::HSL(h, s, l) => {
                out.append("hsl(");
                push_decimal(out, h as u128);
                out.append(", ");
                out.append(percent_str(s));
                out.append("%, ");
                out.append(percent_str(l));
                out.append("%)");
            },
            Color::HSLA(h, s, l, a) => {
                out.append("hsla(");
                push_decimal(out, h as u128);
                out.append(", ");
                out.append(percent_str(s));
                out.append("%, ");
                out.append(percent_str(l));
                out.append("%, ");
                out.append(percent_str(a));
                out.append("%)");
            },
            _ => {
                out.append(color_name_str(self));
            },
        }
        out.append("\"");
        assert(out@ =~= start + self.js());
    }
}

/// Where a polygon's stroke lies relative to its edge.
#[derive(Clone, Copy, Debug, PartialEq, Eq, Structural)]
pub enum StrokePosition {
    /// The stroke is centered on the polygon's path, with half the stroke inside the polygon and half the stroke outside the polygon.
    Center,
    /// The stroke lies inside the polygon.
    Inside,
    /// The stroke lies outside the polygon.
    Outside,
}

impl JavaScript for StrokePosition {
    open spec fn js(&self) -> Seq<char> {
        match self {
            StrokePosition::Center => "google.maps.StrokePosition.CENTER"@,
            StrokePosition::Inside => "google.maps.StrokePosition.INSIDE"@,
            StrokePosition::Outside => "google.maps.StrokePosition.OUTSIDE"@,
        }
    }

    fn fmt_js(&self, out: &mut String) {
        match self {
            StrokePosition::Center => out.append("google.maps.StrokePosition.CENTER"),
            StrokePosition::Inside => out.append("google.maps.StrokePosition.INSIDE"),
            StrokePosition::Outside => out.append("google.maps.StrokePosition.OUTSIDE"),
        }
    }
}

} // verus!
