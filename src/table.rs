use vstd::prelude::*;

use crate::record::{CountryCode, CountryView};

verus! {

/// Number of records in the table.
pub const COUNT: usize = 249;

/// Width in characters of one row of `TABLE`.
pub const ROW_WIDTH: usize = 63;

/// Column of a row where the name starts.
pub const NAME_START: usize = 11;

/// How many leading characters of the name column tell every row apart.
pub const NAME_KEY_LEN: usize = 17;

/// The table as fixed-width text, one row per record in the authored order
/// (by numeric code): the alpha-2 code, the alpha-3 code, the numeric code
/// and the name, separated by one space, the name padded with spaces to the
/// end of the row.
pub const TABLE: &'static str = "\
    AF AFG 004 Afghanistan                                         \
    AL ALB 008 Albania                                             \
    AQ ATA 010 Antarctica                                          \
    DZ DZA 012 Algeria                                             \
    AS ASM 016 American Samoa                                      \
    AD AND 020 Andorra                                             \
    AO AGO 024 Angola                                              \
    AG ATG 028 Antigua and Barbuda                                 \
    AZ AZE 031 Azerbaijan                                          \
    AR ARG 032 Argentina                                           \
    AU AUS 036 Australia                                           \
    AT AUT 040 Austria                                             \
    BS BHS 044 Bahamas                                             \
    BH BHR 048 Bahrain                                             \
    BD BGD 050 Bangladesh                                          \
    AM ARM 051 Armenia                                             \
    BB BRB 052 Barbados                                            \
    BE BEL 056 Belgium                                             \
    BM BMU 060 Bermuda                                             \
    BT BTN 064 Bhutan                                              \
    BO BOL 068 Bolivia (Plurinational State of)                    \
    BA BIH 070 Bosnia and Herzegovina                              \
    BW BWA 072 Botswana                                            \
    BV BVT 074 Bouvet Island                                       \
    BR BRA 076 Brazil                                              \
    BZ BLZ 084 Belize                                              \
    IO IOT 086 British Indian Ocean Territory                      \
    SB SLB 090 Solomon Islands                                     \
    VG VGB 092 Virgin Islands (British)                            \
    BN BRN 096 Brunei Darussalam                                   \
    BG BGR 100 Bulgaria                                            \
    MM MMR 104 Myanmar                                             \
    BI BDI 108 Burundi                                             \
    BY BLR 112 Belarus                                             \
    KH KHM 116 Cambodia                                            \
    CM CMR 120 Cameroon                                            \
    CA CAN 124 Canada                                              \
    CV CPV 132 Cabo Verde                                          \
    KY CYM 136 Cayman Islands                                      \
    CF CAF 140 Central African Republic                            \
    LK LKA 144 Sri Lanka                                           \
    TD TCD 148 Chad                                                \
    CL CHL 152 Chile                                               \
    CN CHN 156 China                                               \
    TW TWN 158 Taiwan, Province of China[a]                        \
    CX CXR 162 Christmas Island                                    \
    CC CCK 166 Cocos (Keeling) Islands                             \
    CO COL 170 Colombia                                            \
    KM COM 174 Comoros                                             \
    YT MYT 175 Mayotte                                             \
    CG COG 178 Congo                                               \
    CD COD 180 Congo (Democratic Republic of the)                  \
    CK COK 184 Cook Islands                                        \
    CR CRI 188 Costa Rica                                          \
    HR HRV 191 Croatia                                             \
    CU CUB 192 Cuba                                                \
    CY CYP 196 Cyprus                                              \
    CZ CZE 203 Czech Republic                                      \
    BJ BEN 204 Benin                                               \
    DK DNK 208 Denmark                                             \
    DM DMA 212 Dominica                                            \
    DO DOM 214 Dominican Republic                                  \
    EC ECU 218 Ecuador                                             \
    SV SLV 222 El Salvador                                         \
    GQ GNQ 226 Equatorial Guinea                                   \
    ET ETH 231 Ethiopia                                            \
    ER ERI 232 Eritrea                                             \
    EE EST 233 Estonia                                             \
    FO FRO 234 Faroe Islands                                       \
    FK FLK 238 Falkland Islands                                    \
    GS SGS 239 South Georgia and the South Sandwich Islands        \
    FJ FJI 242 Fiji                                                \
    FI FIN 246 Finland                                             \
    AX ALA 248 Åland Islands                                       \
    FR FRA 250 France                                              \
    GF GUF 254 French Guiana                                       \
    PF PYF 258 French Polynesia                                    \
    TF ATF 260 French Southern Territories                         \
    DJ DJI 262 Djibouti                                            \
    GA GAB 266 Gabon                                               \
    GE GEO 268 Georgia                                             \
    GM GMB 270 Gambia                                              \
    PS PSE 275 Palestine, State of                                 \
    DE DEU 276 Germany                                             \
    GH GHA 288 Ghana                                               \
    GI GIB 292 Gibraltar                                           \
    KI KIR 296 Kiribati                                            \
    GR GRC 300 Greece                                              \
    GL GRL 304 Greenland                                           \
    GD GRD 308 Grenada                                             \
    GP GLP 312 Guadeloupe                                          \
    GU GUM 316 Guam                                                \
    GT GTM 320 Guatemala                                           \
    GN GIN 324 Guinea                                              \
    GY GUY 328 Guyana                                              \
    HT HTI 332 Haiti                                               \
    HM HMD 334 Heard Island and McDonald Islands                   \
    VA VAT 336 Holy See                                            \
    HN HND 340 Honduras                                            \
    HK HKG 344 Hong Kong                                           \
    HU HUN 348 Hungary                                             \
    IS ISL 352 Iceland                                             \
    IN IND 356 India                                               \
    ID IDN 360 Indonesia                                           \
    IR IRN 364 Iran (Islamic Republic of)                          \
    IQ IRQ 368 Iraq                                                \
    IE IRL 372 Ireland                                             \
    IL ISR 376 Israel                                              \
    IT ITA 380 Italy                                               \
    CI CIV 384 Côte d'Ivoire                                       \
    JM JAM 388 Jamaica                                             \
    JP JPN 392 Japan                                               \
    KZ KAZ 398 Kazakhstan                                          \
    JO JOR 400 Jordan                                              \
    KE KEN 404 Kenya                                               \
    KP PRK 408 Korea (Democratic People's Republic of)             \
    KR KOR 410 Korea (Republic of)                                 \
    KW KWT 414 Kuwait                                              \
    KG KGZ 417 Kyrgyzstan                                          \
    LA LAO 418 Lao People's Democratic Republic                    \
    LB LBN 422 Lebanon                                             \
    LS LSO 426 Lesotho                                             \
    LV LVA 428 Latvia                                              \
    LR LBR 430 Liberia                                             \
    LY LBY 434 Libya                                               \
    LI LIE 438 Liechtenstein                                       \
    LT LTU 440 Lithuania                                           \
    LU LUX 442 Luxembourg                                          \
    MO MAC 446 Macao                                               \
    MG MDG 450 Madagascar                                          \
    MW MWI 454 Malawi                                              \
    MY MYS 458 Malaysia                                            \
    MV MDV 462 Maldives                                            \
    ML MLI 466 Mali                                                \
    MT MLT 470 Malta                                               \
    MQ MTQ 474 Martinique                                          \
    MR MRT 478 Mauritania                                          \
    MU MUS 480 Mauritius                                           \
    MX MEX 484 Mexico                                              \
    MC MCO 492 Monaco                                              \
    MN MNG 496 Mongolia                                            \
    MD MDA 498 Moldova (Republic of)                               \
    ME MNE 499 Montenegro                                          \
    MS MSR 500 Montserrat                                          \
    MA MAR 504 Morocco                                             \
    MZ MOZ 508 Mozambique                                          \
    OM OMN 512 Oman                                                \
    NA NAM 516 Namibia                                             \
    NR NRU 520 Nauru                                               \
    NP NPL 524 Nepal                                               \
    NL NLD 528 Netherlands                                         \
    CW CUW 531 Curaçao                                             \
    AW ABW 533 Aruba                                               \
    SX SXM 534 Sint Maarten (Dutch part)                           \
    BQ BES 535 Bonaire, Sint Eustatius and Saba                    \
    NC NCL 540 New Caledonia                                       \
    VU VUT 548 Vanuatu                                             \
    NZ NZL 554 New Zealand                                         \
    NI NIC 558 Nicaragua                                           \
    NE NER 562 Niger                                               \
    NG NGA 566 Nigeria                                             \
    NU NIU 570 Niue                                                \
    NF NFK 574 Norfolk Island                                      \
    NO NOR 578 Norway                                              \
    MP MNP 580 Northern Mariana Islands                            \
    UM UMI 581 United States Minor Outlying Islands                \
    FM FSM 583 Micronesia (Federated States of)                    \
    MH MHL 584 Marshall Islands                                    \
    PW PLW 585 Palau                                               \
    PK PAK 586 Pakistan                                            \
    PA PAN 591 Panama                                              \
    PG PNG 598 Papua New Guinea                                    \
    PY PRY 600 Paraguay                                            \
    PE PER 604 Peru                                                \
    PH PHL 608 Philippines                                         \
    PN PCN 612 Pitcairn                                            \
    PL POL 616 Poland                                              \
    PT PRT 620 Portugal                                            \
    GW GNB 624 Guinea-Bissau                                       \
    TL TLS 626 Timor-Leste                                         \
    PR PRI 630 Puerto Rico                                         \
    QA QAT 634 Qatar                                               \
    RE REU 638 Réunion                                             \
    RO ROU 642 Romania                                             \
    RU RUS 643 Russian Federation                                  \
    RW RWA 646 Rwanda                                              \
    BL BLM 652 Saint Barthélemy                                    \
    SH SHN 654 Saint Helena, Ascension and Tristan da Cunha        \
    KN KNA 659 Saint Kitts and Nevis                               \
    AI AIA 660 Anguilla                                            \
    LC LCA 662 Saint Lucia                                         \
    MF MAF 663 Saint Martin (French part)                          \
    PM SPM 666 Saint Pierre and Miquelon                           \
    VC VCT 670 Saint Vincent and the Grenadines                    \
    SM SMR 674 San Marino                                          \
    ST STP 678 Sao Tome and Principe                               \
    SA SAU 682 Saudi Arabia                                        \
    SN SEN 686 Senegal                                             \
    RS SRB 688 Serbia                                              \
    SC SYC 690 Seychelles                                          \
    SL SLE 694 Sierra Leone                                        \
    SG SGP 702 Singapore                                           \
    SK SVK 703 Slovakia                                            \
    VN VNM 704 Viet Nam                                            \
    SI SVN 705 Slovenia                                            \
    SO SOM 706 Somalia                                             \
    ZA ZAF 710 South Africa                                        \
    ZW ZWE 716 Zimbabwe                                            \
    ES ESP 724 Spain                                               \
    SS SSD 728 South Sudan                                         \
    SD SDN 729 Sudan                                               \
    EH ESH 732 Western Sahara                                      \
    SR SUR 740 Suriname                                            \
    SJ SJM 744 Svalbard and Jan Mayen                              \
    SZ SWZ 748 Swaziland                                           \
    SE SWE 752 Sweden                                              \
    CH CHE 756 Switzerland                                         \
    SY SYR 760 Syrian Arab Republic                                \
    TJ TJK 762 Tajikistan                                          \
    TH THA 764 Thailand                                            \
    TG TGO 768 Togo                                                \
    TK TKL 772 Tokelau                                             \
    TO TON 776 Tonga                                               \
    TT TTO 780 Trinidad and Tobago                                 \
    AE ARE 784 United Arab Emirates                                \
    TN TUN 788 Tunisia                                             \
    TR TUR 792 Turkey                                              \
    TM TKM 795 Turkmenistan                                        \
    TC TCA 796 Turks and Caicos Islands                            \
    TV TUV 798 Tuvalu                                              \
    UG UGA 800 Uganda                                              \
    UA UKR 804 Ukraine                                             \
    MK MKD 807 Macedonia (the former Yugoslav Republic of)         \
    EG EGY 818 Egypt                                               \
    GB GBR 826 United Kingdom of Great Britain and Northern Ireland\
    GG GGY 831 Guernsey                                            \
    JE JEY 832 Jersey                                              \
    IM IMN 833 Isle of Man                                         \
    TZ TZA 834 Tanzania, United Republic of                        \
    US USA 840 United States of America                            \
    VI VIR 850 Virgin Islands (U.S.)                               \
    BF BFA 854 Burkina Faso                                        \
    UY URY 858 Uruguay                                             \
    UZ UZB 860 Uzbekistan                                          \
    VE VEN 862 Venezuela (Bolivarian Republic of)                  \
    WF WLF 876 Wallis and Futuna                                   \
    WS WSM 882 Samoa                                               \
    YE YEM 887 Yemen                                               \
    ZM ZMB 894 Zambia                                              \
";

/// Row `i` of `TABLE`.
pub open spec fn row(i: int) -> Seq<char> {
    TABLE@.subrange(i * ROW_WIDTH, i * ROW_WIDTH + ROW_WIDTH)
}

/// `s` without its trailing spaces.
pub open spec fn trim_end(s: Seq<char>) -> Seq<char>
    decreases s.len(),
{
    if s.len() > 0 && s.last() == ' ' {
        trim_end(s.drop_last())
    } else {
        s
    }
}

/// The record that row `i` describes.
pub open spec fn entry(i: int) -> CountryView {
    CountryView {
        alpha2: row(i).subrange(0, 2),
        alpha3: row(i).subrange(3, 6),
        name: trim_end(row(i).subrange(NAME_START as int, ROW_WIDTH as int)),
        num: row(i).subrange(7, 10),
    }
}

/// The whole table, in order.
pub open spec fn table() -> Seq<CountryView> {
    Seq::new(COUNT as nat, |i: int| entry(i))
}

/// The views of a sequence of records.
pub open spec fn views(codes: Seq<CountryCode>) -> Seq<CountryView> {
    codes.map_values(|c: CountryCode| c@)
}

/// Whether `c` is an uppercase ASCII letter.
pub open spec fn is_upper_letter(c: char) -> bool {
    'A' <= c && c <= 'Z'
}

/// Whether `c` is an ASCII digit.
pub open spec fn is_digit(c: char) -> bool {
    '0' <= c && c <= '9'
}

/// Whether the letter columns of a row hold uppercase ASCII letters and its
/// numeric column ASCII digits.
pub open spec fn is_code_row(r: Seq<char>) -> bool {
    &&& is_upper_letter(r[0]) && is_upper_letter(r[1])
    &&& is_upper_letter(r[3]) && is_upper_letter(r[4]) && is_upper_letter(r[5])
    &&& is_digit(r[7]) && is_digit(r[8]) && is_digit(r[9])
}

/// The `n` characters of `s` from `start`, read as the digits of a number in
/// base 2^21 (every `char` is below 2^21), most significant first.
pub open spec fn digits_key(s: Seq<char>, start: int, n: nat) -> int
    decreases n,
{
    if n == 0 {
        0
    } else {
        digits_key(s, start, (n - 1) as nat) * 0x200000 + s[start + n - 1] as int
    }
}

/// The key of the `n` characters of row `i` of `TABLE` from column `col`.
pub open spec fn column_key(i: int, col: int, n: nat) -> int {
    digits_key(TABLE@, i * ROW_WIDTH + col, n)
}

/// What `TABLE` holds: its length, that the code columns hold uppercase
/// letters and digits, and that no two rows share an alpha-2 code, an alpha-3
/// code, a numeric code or the leading characters of the name column.
///
/// Verus learns the characters of a string literal only from a
/// `reveal_strlit` that is given the literal itself, so the text of `TABLE`
/// stands here a second time. The facts are stated of `TABLE@`: were the two
/// copies to differ, this proof would fail.
#[verifier::rlimit(100)]
#[verifier::spinoff_prover]
proof fn lemma_text()
    ensures
        TABLE@.len() == COUNT * ROW_WIDTH,
        forall|i: int|
            0 <= i < COUNT ==> #[trigger] is_code_row(row(i)),
        forall|i: int, j: int|
            0 <= i < j < COUNT ==> #[trigger] column_key(i, 0, 2) != #[trigger] column_key(j, 0, 2),
        forall|i: int, j: int|
            0 <= i < j < COUNT ==> #[trigger] column_key(i, 3, 3) != #[trigger] column_key(j, 3, 3),
        forall|i: int, j: int|
            0 <= i < j < COUNT ==> #[trigger] column_key(i, 7, 3) != #[trigger] column_key(j, 7, 3),
        forall|i: int, j: int|
            0 <= i < j < COUNT ==> #[trigger] column_key(i, NAME_START as int, NAME_KEY_LEN as nat)
                != #[trigger] column_key(j, NAME_START as int, NAME_KEY_LEN as nat),
{
    reveal_strlit("\
        AF AFG 004 Afghanistan                                         \
        AL ALB 008 Albania                                             \
        AQ ATA 010 Antarctica                                          \
        DZ DZA 012 Algeria                                             \
        AS ASM 016 American Samoa                                      \
        AD AND 020 Andorra                                             \
        AO AGO 024 Angola                                              \
        AG ATG 028 Antigua and Barbuda                                 \
        AZ AZE 031 Azerbaijan                                          \
        AR ARG 032 Argentina                                           \
        AU AUS 036 Australia                                           \
        AT AUT 040 Austria                                             \
        BS BHS 044 Bahamas                                             \
        BH BHR 048 Bahrain                                             \
        BD BGD 050 Bangladesh                                          \
        AM ARM 051 Armenia                                             \
        BB BRB 052 Barbados                                            \
        BE BEL 056 Belgium                                             \
        BM BMU 060 Bermuda                                             \
        BT BTN 064 Bhutan                                              \
        BO BOL 068 Bolivia (Plurinational State of)                    \
        BA BIH 070 Bosnia and Herzegovina                              \
        BW BWA 072 Botswana                                            \
        BV BVT 074 Bouvet Island                                       \
        BR BRA 076 Brazil                                              \
        BZ BLZ 084 Belize                                              \
        IO IOT 086 British Indian Ocean Territory                      \
        SB SLB 090 Solomon Islands                                     \
        VG VGB 092 Virgin Islands (British)                            \
        BN BRN 096 Brunei Darussalam                                   \
        BG BGR 100 Bulgaria                                            \
        MM MMR 104 Myanmar                                             \
        BI BDI 108 Burundi                                             \
        BY BLR 112 Belarus                                             \
        KH KHM 116 Cambodia                                            \
        CM CMR 120 Cameroon                                            \
        CA CAN 124 Canada                                              \
        CV CPV 132 Cabo Verde                                          \
        KY CYM 136 Cayman Islands                                      \
        CF CAF 140 Central African Republic                            \
        LK LKA 144 Sri Lanka                                           \
        TD TCD 148 Chad                                                \
        CL CHL 152 Chile                                               \
        CN CHN 156 China                                               \
        TW TWN 158 Taiwan, Province of China[a]                        \
        CX CXR 162 Christmas Island                                    \
        CC CCK 166 Cocos (Keeling) Islands                             \
        CO COL 170 Colombia                                            \
        KM COM 174 Comoros                                             \
        YT MYT 175 Mayotte                                             \
        CG COG 178 Congo                                               \
        CD COD 180 Congo (Democratic Republic of the)                  \
        CK COK 184 Cook Islands                                        \
        CR CRI 188 Costa Rica                                          \
        HR HRV 191 Croatia                                             \
        CU CUB 192 Cuba                                                \
        CY CYP 196 Cyprus                                              \
        CZ CZE 203 Czech Republic                                      \
        BJ BEN 204 Benin                                               \
        DK DNK 208 Denmark                                             \
        DM DMA 212 Dominica                                            \
        DO DOM 214 Dominican Republic                                  \
        EC ECU 218 Ecuador                                             \
        SV SLV 222 El Salvador                                         \
        GQ GNQ 226 Equatorial Guinea                                   \
        ET ETH 231 Ethiopia                                            \
        ER ERI 232 Eritrea                                             \
        EE EST 233 Estonia                                             \
        FO FRO 234 Faroe Islands                                       \
        FK FLK 238 Falkland Islands                                    \
        GS SGS 239 South Georgia and the South Sandwich Islands        \
        FJ FJI 242 Fiji                                                \
        FI FIN 246 Finland                                             \
        AX ALA 248 Åland Islands                                       \
        FR FRA 250 France                                              \
        GF GUF 254 French Guiana                                       \
        PF PYF 258 French Polynesia                                    \
        TF ATF 260 French Southern Territories                         \
        DJ DJI 262 Djibouti                                            \
        GA GAB 266 Gabon                                               \
        GE GEO 268 Georgia                                             \
        GM GMB 270 Gambia                                              \
        PS PSE 275 Palestine, State of                                 \
        DE DEU 276 Germany                                             \
        GH GHA 288 Ghana                                               \
        GI GIB 292 Gibraltar                                           \
        KI KIR 296 Kiribati                                            \
        GR GRC 300 Greece                                              \
        GL GRL 304 Greenland                                           \
        GD GRD 308 Grenada                                             \
        GP GLP 312 Guadeloupe                                          \
        GU GUM 316 Guam                                                \
        GT GTM 320 Guatemala                                           \
        GN GIN 324 Guinea                                              \
        GY GUY 328 Guyana                                              \
        HT HTI 332 Haiti                                               \
        HM HMD 334 Heard Island and McDonald Islands                   \
        VA VAT 336 Holy See                                            \
        HN HND 340 Honduras                                            \
        HK HKG 344 Hong Kong                                           \
        HU HUN 348 Hungary                                             \
        IS ISL 352 Iceland                                             \
        IN IND 356 India                                               \
        ID IDN 360 Indonesia                                           \
        IR IRN 364 Iran (Islamic Republic of)                          \
        IQ IRQ 368 Iraq                                                \
        IE IRL 372 Ireland                                             \
        IL ISR 376 Israel                                              \
        IT ITA 380 Italy                                               \
        CI CIV 384 Côte d'Ivoire                                       \
        JM JAM 388 Jamaica                                             \
        JP JPN 392 Japan                                               \
        KZ KAZ 398 Kazakhstan                                          \
        JO JOR 400 Jordan                                              \
        KE KEN 404 Kenya                                               \
        KP PRK 408 Korea (Democratic People's Republic of)             \
        KR KOR 410 Korea (Republic of)                                 \
        KW KWT 414 Kuwait                                              \
        KG KGZ 417 Kyrgyzstan                                          \
        LA LAO 418 Lao People's Democratic Republic                    \
        LB LBN 422 Lebanon                                             \
        LS LSO 426 Lesotho                                             \
        LV LVA 428 Latvia                                              \
        LR LBR 430 Liberia                                             \
        LY LBY 434 Libya                                               \
        LI LIE 438 Liechtenstein                                       \
        LT LTU 440 Lithuania                                           \
        LU LUX 442 Luxembourg                                          \
        MO MAC 446 Macao                                               \
        MG MDG 450 Madagascar                                          \
        MW MWI 454 Malawi                                              \
        MY MYS 458 Malaysia                                            \
        MV MDV 462 Maldives                                            \
        ML MLI 466 Mali                                                \
        MT MLT 470 Malta                                               \
        MQ MTQ 474 Martinique                                          \
        MR MRT 478 Mauritania                                          \
        MU MUS 480 Mauritius                                           \
        MX MEX 484 Mexico                                              \
        MC MCO 492 Monaco                                              \
        MN MNG 496 Mongolia                                            \
        MD MDA 498 Moldova (Republic of)                               \
        ME MNE 499 Montenegro                                          \
        MS MSR 500 Montserrat                                          \
        MA MAR 504 Morocco                                             \
        MZ MOZ 508 Mozambique                                          \
        OM OMN 512 Oman                                                \
        NA NAM 516 Namibia                                             \
        NR NRU 520 Nauru                                               \
        NP NPL 524 Nepal                                               \
        NL NLD 528 Netherlands                                         \
        CW CUW 531 Curaçao                                             \
        AW ABW 533 Aruba                                               \
        SX SXM 534 Sint Maarten (Dutch part)                           \
        BQ BES 535 Bonaire, Sint Eustatius and Saba                    \
        NC NCL 540 New Caledonia                                       \
        VU VUT 548 Vanuatu                                             \
        NZ NZL 554 New Zealand                                         \
        NI NIC 558 Nicaragua                                           \
        NE NER 562 Niger                                               \
        NG NGA 566 Nigeria                                             \
        NU NIU 570 Niue                                                \
        NF NFK 574 Norfolk Island                                      \
        NO NOR 578 Norway                                              \
        MP MNP 580 Northern Mariana Islands                            \
        UM UMI 581 United States Minor Outlying Islands                \
        FM FSM 583 Micronesia (Federated States of)                    \
        MH MHL 584 Marshall Islands                                    \
        PW PLW 585 Palau                                               \
        PK PAK 586 Pakistan                                            \
        PA PAN 591 Panama                                              \
        PG PNG 598 Papua New Guinea                                    \
        PY PRY 600 Paraguay                                            \
        PE PER 604 Peru                                                \
        PH PHL 608 Philippines                                         \
        PN PCN 612 Pitcairn                                            \
        PL POL 616 Poland                                              \
        PT PRT 620 Portugal                                            \
        GW GNB 624 Guinea-Bissau                                       \
        TL TLS 626 Timor-Leste                                         \
        PR PRI 630 Puerto Rico                                         \
        QA QAT 634 Qatar                                               \
        RE REU 638 Réunion                                             \
        RO ROU 642 Romania                                             \
        RU RUS 643 Russian Federation                                  \
        RW RWA 646 Rwanda                                              \
        BL BLM 652 Saint Barthélemy                                    \
        SH SHN 654 Saint Helena, Ascension and Tristan da Cunha        \
        KN KNA 659 Saint Kitts and Nevis                               \
        AI AIA 660 Anguilla                                            \
        LC LCA 662 Saint Lucia                                         \
        MF MAF 663 Saint Martin (French part)                          \
        PM SPM 666 Saint Pierre and Miquelon                           \
        VC VCT 670 Saint Vincent and the Grenadines                    \
        SM SMR 674 San Marino                                          \
        ST STP 678 Sao Tome and Principe                               \
        SA SAU 682 Saudi Arabia                                        \
        SN SEN 686 Senegal                                             \
        RS SRB 688 Serbia                                              \
        SC SYC 690 Seychelles                                          \
        SL SLE 694 Sierra Leone                                        \
        SG SGP 702 Singapore                                           \
        SK SVK 703 Slovakia                                            \
        VN VNM 704 Viet Nam                                            \
        SI SVN 705 Slovenia                                            \
        SO SOM 706 Somalia                                             \
        ZA ZAF 710 South Africa                                        \
        ZW ZWE 716 Zimbabwe                                            \
        ES ESP 724 Spain                                               \
        SS SSD 728 South Sudan                                         \
        SD SDN 729 Sudan                                               \
        EH ESH 732 Western Sahara                                      \
        SR SUR 740 Suriname                                            \
        SJ SJM 744 Svalbard and Jan Mayen                              \
        SZ SWZ 748 Swaziland                                           \
        SE SWE 752 Sweden                                              \
        CH CHE 756 Switzerland                                         \
        SY SYR 760 Syrian Arab Republic                                \
        TJ TJK 762 Tajikistan                                          \
        TH THA 764 Thailand                                            \
        TG TGO 768 Togo                                                \
        TK TKL 772 Tokelau                                             \
        TO TON 776 Tonga                                               \
        TT TTO 780 Trinidad and Tobago                                 \
        AE ARE 784 United Arab Emirates                                \
        TN TUN 788 Tunisia                                             \
        TR TUR 792 Turkey                                              \
        TM TKM 795 Turkmenistan                                        \
        TC TCA 796 Turks and Caicos Islands                            \
        TV TUV 798 Tuvalu                                              \
        UG UGA 800 Uganda                                              \
        UA UKR 804 Ukraine                                             \
        MK MKD 807 Macedonia (the former Yugoslav Republic of)         \
        EG EGY 818 Egypt                                               \
        GB GBR 826 United Kingdom of Great Britain and Northern Ireland\
        GG GGY 831 Guernsey                                            \
        JE JEY 832 Jersey                                              \
        IM IMN 833 Isle of Man                                         \
        TZ TZA 834 Tanzania, United Republic of                        \
        US USA 840 United States of America                            \
        VI VIR 850 Virgin Islands (U.S.)                               \
        BF BFA 854 Burkina Faso                                        \
        UY URY 858 Uruguay                                             \
        UZ UZB 860 Uzbekistan                                          \
        VE VEN 862 Venezuela (Bolivarian Republic of)                  \
        WF WLF 876 Wallis and Futuna                                   \
        WS WSM 882 Samoa                                               \
        YE YEM 887 Yemen                                               \
        ZM ZMB 894 Zambia                                              \
    ");
    assert forall|i: int| 0 <= i < COUNT implies #[trigger] is_code_row(row(i)) by {
        assert(row(i)[0] == TABLE@[i * ROW_WIDTH]);
        assert(row(i)[1] == TABLE@[i * ROW_WIDTH + 1]);
        assert(row(i)[3] == TABLE@[i * ROW_WIDTH + 3]);
        assert(row(i)[4] == TABLE@[i * ROW_WIDTH + 4]);
        assert(row(i)[5] == TABLE@[i * ROW_WIDTH + 5]);
        assert(row(i)[7] == TABLE@[i * ROW_WIDTH + 7]);
        assert(row(i)[8] == TABLE@[i * ROW_WIDTH + 8]);
        assert(row(i)[9] == TABLE@[i * ROW_WIDTH + 9]);
    }
    assert forall|i: int, j: int|
        0 <= i < j < COUNT implies #[trigger] column_key(i, 0, 2) != #[trigger] column_key(j, 0, 2) by {
        reveal_with_fuel(digits_key, 3);
    }
    assert forall|i: int, j: int|
        0 <= i < j < COUNT implies #[trigger] column_key(i, 3, 3) != #[trigger] column_key(j, 3, 3) by {
        reveal_with_fuel(digits_key, 4);
    }
    assert forall|i: int, j: int|
        0 <= i < j < COUNT implies #[trigger] column_key(i, 7, 3) != #[trigger] column_key(j, 7, 3) by {
        reveal_with_fuel(digits_key, 4);
    }
    assert forall|i: int, j: int|
        0 <= i < j < COUNT implies #[trigger] column_key(i, NAME_START as int, NAME_KEY_LEN as nat)
            != #[trigger] column_key(j, NAME_START as int, NAME_KEY_LEN as nat) by {
        reveal_with_fuel(digits_key, 18);
    }
}

/// Equal windows of a sequence have equal keys.
proof fn lemma_key_of_equal(s: Seq<char>, a: int, b: int, n: nat)
    requires
        0 <= a,
        a + n <= s.len(),
        0 <= b,
        b + n <= s.len(),
        s.subrange(a, a + n) == s.subrange(b, b + n),
    ensures
        digits_key(s, a, n) == digits_key(s, b, n),
    decreases n,
{
    if n > 0 {
        assert(s[a + n - 1] == s.subrange(a, a + n)[n - 1]);
        assert(s[b + n - 1] == s.subrange(b, b + n)[n - 1]);
        assert(s.subrange(a, a + n - 1) =~= s.subrange(a, a + n).subrange(0, n - 1));
        assert(s.subrange(b, b + n - 1) =~= s.subrange(b, b + n).subrange(0, n - 1));
        lemma_key_of_equal(s, a, b, (n - 1) as nat);
    }
}

/// `trim_end(s)` is a prefix of `s`, and only spaces follow it.
proof fn lemma_trim_end(s: Seq<char>)
    ensures
        trim_end(s).len() <= s.len(),
        trim_end(s) == s.subrange(0, trim_end(s).len() as int),
        forall|k: int| trim_end(s).len() <= k < s.len() ==> s[k] == ' ',
    decreases s.len(),
{
    if s.len() > 0 && s.last() == ' ' {
        lemma_trim_end(s.drop_last());
        assert(s.drop_last().subrange(0, trim_end(s).len() as int) =~= s.subrange(
            0,
            trim_end(s).len() as int,
        ));
        assert forall|k: int| trim_end(s).len() <= k < s.len() implies s[k] == ' ' by {
            if k < s.len() - 1 {
                assert(s[k] == s.drop_last()[k]);
            }
        }
    } else {
        assert(s.subrange(0, s.len() as int) =~= s);
    }
}

/// Two sequences of one length that trim to the same sequence are equal.
proof fn lemma_trim_end_injective(a: Seq<char>, b: Seq<char>)
    requires
        a.len() == b.len(),
        trim_end(a) == trim_end(b),
    ensures
        a == b,
{
    lemma_trim_end(a);
    lemma_trim_end(b);
    assert forall|k: int| 0 <= k < a.len() implies a[k] == b[k] by {
        if k < trim_end(a).len() {
            assert(a[k] == trim_end(a)[k]);
            assert(b[k] == trim_end(b)[k]);
        }
    }
    assert(a =~= b);
}

/// No two records of the table share an alpha-2 code, an alpha-3 code or a
/// numeric code.
pub proof fn lemma_codes_unique()
    ensures
        forall|i: int, j: int|
            0 <= i < table().len() && 0 <= j < table().len() && i != j ==> #[trigger] table()[i].alpha2
                != #[trigger] table()[j].alpha2,
        forall|i: int, j: int|
            0 <= i < table().len() && 0 <= j < table().len() && i != j ==> #[trigger] table()[i].alpha3
                != #[trigger] table()[j].alpha3,
        forall|i: int, j: int|
            0 <= i < table().len() && 0 <= j < table().len() && i != j ==> #[trigger] table()[i].num
                != #[trigger] table()[j].num,
{
    lemma_text();
    let t = TABLE@;
    let w = ROW_WIDTH as int;
    assert forall|i: int, j: int|
        0 <= i < table().len() && 0 <= j < table().len() && i != j implies table()[i].alpha2
        != table()[j].alpha2 && table()[i].alpha3 != table()[j].alpha3 && table()[i].num
        != table()[j].num by {
        assert(table()[i].alpha2 =~= t.subrange(i * w, i * w + 2));
        assert(table()[j].alpha2 =~= t.subrange(j * w, j * w + 2));
        assert(table()[i].alpha3 =~= t.subrange(i * w + 3, i * w + 6));
        assert(table()[j].alpha3 =~= t.subrange(j * w + 3, j * w + 6));
        assert(table()[i].num =~= t.subrange(i * w + 7, i * w + 10));
        assert(table()[j].num =~= t.subrange(j * w + 7, j * w + 10));
        if table()[i].alpha2 == table()[j].alpha2 {
            lemma_key_of_equal(t, i * w, j * w, 2);
            assert(column_key(i, 0, 2) == column_key(j, 0, 2));
        }
        if table()[i].alpha3 == table()[j].alpha3 {
            lemma_key_of_equal(t, i * w + 3, j * w + 3, 3);
            assert(column_key(i, 3, 3) == column_key(j, 3, 3));
        }
        if table()[i].num == table()[j].num {
            lemma_key_of_equal(t, i * w + 7, j * w + 7, 3);
            assert(column_key(i, 7, 3) == column_key(j, 7, 3));
        }
    }
}

/// No two records of the table share a name.
pub proof fn lemma_names_unique()
    ensures
        forall|i: int, j: int|
            0 <= i < table().len() && 0 <= j < table().len() && i != j ==> #[trigger] table()[i].name
                != #[trigger] table()[j].name,
{
    lemma_text();
    let t = TABLE@;
    let w = ROW_WIDTH as int;
    let ns = NAME_START as int;
    let k = NAME_KEY_LEN as int;
    assert forall|i: int, j: int|
        0 <= i < table().len() && 0 <= j < table().len() && i != j implies table()[i].name
        != table()[j].name by {
        if table()[i].name == table()[j].name {
            let fi = row(i).subrange(ns, w);
            let fj = row(j).subrange(ns, w);
            lemma_trim_end_injective(fi, fj);
            assert(t.subrange(i * w + ns, i * w + ns + k) =~= fi.subrange(0, k));
            assert(t.subrange(j * w + ns, j * w + ns + k) =~= fj.subrange(0, k));
            lemma_key_of_equal(t, i * w + ns, j * w + ns, k as nat);
            assert(column_key(i, ns, k as nat) == column_key(j, ns, k as nat));
        }
    }
}

/// The record of row `i`, given the text of that row.
fn entry_of_row(r: &str, Ghost(i): Ghost<int>) -> (c: CountryCode)
    requires
        0 <= i < COUNT,
        r@ == row(i),
        r@.len() == ROW_WIDTH,
    ensures
        c@ == entry(i),
{
    let ghost field = r@.subrange(NAME_START as int, ROW_WIDTH as int);
    let mut end: usize = ROW_WIDTH;
    while end > NAME_START && r.get_char(end - 1) == ' '
        invariant
            r@ == row(i),
            r@.len() == ROW_WIDTH,
            NAME_START <= end <= ROW_WIDTH,
            trim_end(r@.subrange(NAME_START as int, end as int)) == trim_end(field),
        decreases end,
    {
        let ghost part = r@.subrange(NAME_START as int, end as int);
        assert(part.drop_last() =~= r@.subrange(NAME_START as int, end - 1));
        end = end - 1;
    }
    CountryCode {
        alpha2: r.substring_char(0, 2).to_owned(),
        alpha3: r.substring_char(3, 6).to_owned(),
        name: r.substring_char(NAME_START, end).to_owned(),
        num: r.substring_char(7, 10).to_owned(),
    }
}

/// Appends the records of the `count` rows from row `first` on, given the
/// text of those rows. The text is halved at each step, so that slicing it
/// costs time in proportion to its length times the depth of the halving.
fn push_rows(text: &str, first: usize, count: usize, codes: &mut Vec<CountryCode>)
    requires
        first + count <= COUNT,
        TABLE@.len() == COUNT * ROW_WIDTH,
        text@ == TABLE@.subrange(first * ROW_WIDTH, (first + count) * ROW_WIDTH),
        views(old(codes)@) == table().take(first as int),
    ensures
        views(final(codes)@) == table().take(first + count),
    decreases count,
{
    let w = ROW_WIDTH;
    if count == 1 {
        assert(text@ =~= row(first as int));
        let c = entry_of_row(text, Ghost(first as int));
        let ghost before = codes@;
        assert(views(before).len() == first);
        codes.push(c);
        assert forall|k: int| 0 <= k < first implies views(codes@)[k] == table()[k] by {
            assert(codes@[k] == before[k]);
            assert(views(before)[k] == table().take(first as int)[k]);
        }
        assert(views(codes@) =~= table().take(first + 1));
    } else if count > 1 {
        let half = count / 2;
        let left = text.substring_char(0, half * w);
        assert(left@ =~= TABLE@.subrange(first * w, (first + half) * w));
        push_rows(left, first, half, codes);
        let right = text.substring_char(half * w, count * w);
        assert(right@ =~= TABLE@.subrange((first + half) * w, (first + count) * w));
        push_rows(right, first + half, count - half, codes);
    } else {
        assert(table().take(first as int) =~= table().take(first + count));
    }
}

/// Every record of the table, in the authored order. Each call returns a
/// fresh vector, so changing it leaves the table as it is.
pub fn all() -> (codes: Vec<CountryCode>)
    ensures
        views(codes@) == table(),
        codes.len() == COUNT,
{
    let mut codes: Vec<CountryCode> = Vec::new();
    proof {
        lemma_text();
        assert(TABLE@.subrange(0, COUNT * ROW_WIDTH) =~= TABLE@);
        assert(views(codes@) =~= table().take(0));
    }
    push_rows(TABLE, 0, COUNT, &mut codes);
    assert(table().take(COUNT as int) =~= table());
    codes
}

/// Every record of the table has a two-letter alpha-2 code and a
/// three-letter alpha-3 code, in uppercase ASCII letters, and a numeric code
/// of three ASCII digits.
pub proof fn lemma_record_shape()
    ensures
        forall|i: int|
            0 <= i < table().len() ==> {
                &&& (#[trigger] table()[i]).alpha2.len() == 2
                &&& table()[i].alpha3.len() == 3
                &&& table()[i].num.len() == 3
            },
        forall|i: int, k: int|
            0 <= i < table().len() && 0 <= k < 2 ==> is_upper_letter(#[trigger] table()[i].alpha2[k]),
        forall|i: int, k: int|
            0 <= i < table().len() && 0 <= k < 3 ==> is_upper_letter(#[trigger] table()[i].alpha3[k]),
        forall|i: int, k: int|
            0 <= i < table().len() && 0 <= k < 3 ==> is_digit(#[trigger] table()[i].num[k]),
{
    lemma_text();
    assert forall|i: int, k: int| 0 <= i < table().len() && 0 <= k < 2 implies is_upper_letter(
        #[trigger] table()[i].alpha2[k],
    ) by {
        assert(is_code_row(row(i)));
    }
    assert forall|i: int, k: int| 0 <= i < table().len() && 0 <= k < 3 implies is_upper_letter(
        #[trigger] table()[i].alpha3[k],
    ) by {
        assert(is_code_row(row(i)));
    }
    assert forall|i: int, k: int| 0 <= i < table().len() && 0 <= k < 3 implies is_digit(
        #[trigger] table()[i].num[k],
    ) by {
        assert(is_code_row(row(i)));
    }
}

} // verus!
