//! The cotangent of half the field of view, the scale factor of the
//! perspective transform, tabulated per whole degree.
//!
//! For a field of view of `fov` whole degrees, `persp_f(fov)` is
//! `1 / tan(fov / 2)` rounded toward zero at fixed-point resolution: the
//! table is the definition, one exact value per admitted degree, so the
//! derivation needs no transcendental function at run time.

use vstd::prelude::*;

verus! {

/// `1 / tan(fov / 2)` in fixed-point units, for `fov` whole degrees in
/// `1..=179`; zero outside that range.
pub open spec fn persp_f(fov: int) -> int {
    if fov == 1 {
        114_588_650
    } else if fov == 2 {
        57_289_961
    } else if fov == 3 {
        38_188_459
    } else if fov == 4 {
        28_636_253
    } else if fov == 5 {
        22_903_765
    } else if fov == 6 {
        19_081_136
    } else if fov == 7 {
        16_349_855
    } else if fov == 8 {
        14_300_666
    } else if fov == 9 {
        12_706_204
    } else if fov == 10 {
        11_430_052
    } else if fov == 11 {
        10_385_397
    } else if fov == 12 {
        9_514_364
    } else if fov == 13 {
        8_776_887
    } else if fov == 14 {
        8_144_346
    } else if fov == 15 {
        7_595_754
    } else if fov == 16 {
        7_115_369
    } else if fov == 17 {
        6_691_156
    } else if fov == 18 {
        6_313_751
    } else if fov == 19 {
        5_975_764
    } else if fov == 20 {
        5_671_281
    } else if fov == 21 {
        5_395_517
    } else if fov == 22 {
        5_144_554
    } else if fov == 23 {
        4_915_157
    } else if fov == 24 {
        4_704_630
    } else if fov == 25 {
        4_510_708
    } else if fov == 26 {
        4_331_475
    } else if fov == 27 {
        4_165_299
    } else if fov == 28 {
        4_010_780
    } else if fov == 29 {
        3_866_713
    } else if fov == 30 {
        3_732_050
    } else if fov == 31 {
        3_605_883
    } else if fov == 32 {
        3_487_414
    } else if fov == 33 {
        3_375_943
    } else if fov == 34 {
        3_270_852
    } else if fov == 35 {
        3_171_594
    } else if fov == 36 {
        3_077_683
    } else if fov == 37 {
        2_988_684
    } else if fov == 38 {
        2_904_210
    } else if fov == 39 {
        2_823_912
    } else if fov == 40 {
        2_747_477
    } else if fov == 41 {
        2_674_621
    } else if fov == 42 {
        2_605_089
    } else if fov == 43 {
        2_538_647
    } else if fov == 44 {
        2_475_086
    } else if fov == 45 {
        2_414_213
    } else if fov == 46 {
        2_355_852
    } else if fov == 47 {
        2_299_842
    } else if fov == 48 {
        2_246_036
    } else if fov == 49 {
        2_194_299
    } else if fov == 50 {
        2_144_506
    } else if fov == 51 {
        2_096_543
    } else if fov == 52 {
        2_050_303
    } else if fov == 53 {
        2_005_689
    } else if fov == 54 {
        1_962_610
    } else if fov == 55 {
        1_920_982
    } else if fov == 56 {
        1_880_726
    } else if fov == 57 {
        1_841_770
    } else if fov == 58 {
        1_804_047
    } else if fov == 59 {
        1_767_494
    } else if fov == 60 {
        1_732_050
    } else if fov == 61 {
        1_697_663
    } else if fov == 62 {
        1_664_279
    } else if fov == 63 {
        1_631_851
    } else if fov == 64 {
        1_600_334
    } else if fov == 65 {
        1_569_685
    } else if fov == 66 {
        1_539_864
    } else if fov == 67 {
        1_510_835
    } else if fov == 68 {
        1_482_560
    } else if fov == 69 {
        1_455_009
    } else if fov == 70 {
        1_428_148
    } else if fov == 71 {
        1_401_948
    } else if fov == 72 {
        1_376_381
    } else if fov == 73 {
        1_351_422
    } else if fov == 74 {
        1_327_044
    } else if fov == 75 {
        1_303_225
    } else if fov == 76 {
        1_279_941
    } else if fov == 77 {
        1_257_172
    } else if fov == 78 {
        1_234_897
    } else if fov == 79 {
        1_213_097
    } else if fov == 80 {
        1_191_753
    } else if fov == 81 {
        1_170_849
    } else if fov == 82 {
        1_150_368
    } else if fov == 83 {
        1_130_294
    } else if fov == 84 {
        1_110_612
    } else if fov == 85 {
        1_091_308
    } else if fov == 86 {
        1_072_368
    } else if fov == 87 {
        1_053_780
    } else if fov == 88 {
        1_035_530
    } else if fov == 89 {
        1_017_607
    } else if fov == 90 {
        1_000_000
    } else if fov == 91 {
        982_697
    } else if fov == 92 {
        965_688
    } else if fov == 93 {
        948_964
    } else if fov == 94 {
        932_515
    } else if fov == 95 {
        916_331
    } else if fov == 96 {
        900_404
    } else if fov == 97 {
        884_725
    } else if fov == 98 {
        869_286
    } else if fov == 99 {
        854_080
    } else if fov == 100 {
        839_099
    } else if fov == 101 {
        824_336
    } else if fov == 102 {
        809_784
    } else if fov == 103 {
        795_435
    } else if fov == 104 {
        781_285
    } else if fov == 105 {
        767_326
    } else if fov == 106 {
        753_554
    } else if fov == 107 {
        739_961
    } else if fov == 108 {
        726_542
    } else if fov == 109 {
        713_293
    } else if fov == 110 {
        700_207
    } else if fov == 111 {
        687_280
    } else if fov == 112 {
        674_508
    } else if fov == 113 {
        661_885
    } else if fov == 114 {
        649_407
    } else if fov == 115 {
        637_070
    } else if fov == 116 {
        624_869
    } else if fov == 117 {
        612_800
    } else if fov == 118 {
        600_860
    } else if fov == 119 {
        589_045
    } else if fov == 120 {
        577_350
    } else if fov == 121 {
        565_772
    } else if fov == 122 {
        554_309
    } else if fov == 123 {
        542_955
    } else if fov == 124 {
        531_709
    } else if fov == 125 {
        520_567
    } else if fov == 126 {
        509_525
    } else if fov == 127 {
        498_581
    } else if fov == 128 {
        487_732
    } else if fov == 129 {
        476_975
    } else if fov == 130 {
        466_307
    } else if fov == 131 {
        455_726
    } else if fov == 132 {
        445_228
    } else if fov == 133 {
        434_812
    } else if fov == 134 {
        424_474
    } else if fov == 135 {
        414_213
    } else if fov == 136 {
        404_026
    } else if fov == 137 {
        393_910
    } else if fov == 138 {
        383_864
    } else if fov == 139 {
        373_884
    } else if fov == 140 {
        363_970
    } else if fov == 141 {
        354_118
    } else if fov == 142 {
        344_327
    } else if fov == 143 {
        334_595
    } else if fov == 144 {
        324_919
    } else if fov == 145 {
        315_298
    } else if fov == 146 {
        305_730
    } else if fov == 147 {
        296_213
    } else if fov == 148 {
        286_745
    } else if fov == 149 {
        277_324
    } else if fov == 150 {
        267_949
    } else if fov == 151 {
        258_617
    } else if fov == 152 {
        249_328
    } else if fov == 153 {
        240_078
    } else if fov == 154 {
        230_868
    } else if fov == 155 {
        221_694
    } else if fov == 156 {
        212_556
    } else if fov == 157 {
        203_452
    } else if fov == 158 {
        194_380
    } else if fov == 159 {
        185_339
    } else if fov == 160 {
        176_326
    } else if fov == 161 {
        167_342
    } else if fov == 162 {
        158_384
    } else if fov == 163 {
        149_451
    } else if fov == 164 {
        140_540
    } else if fov == 165 {
        131_652
    } else if fov == 166 {
        122_784
    } else if fov == 167 {
        113_935
    } else if fov == 168 {
        105_104
    } else if fov == 169 {
        96_289
    } else if fov == 170 {
        87_488
    } else if fov == 171 {
        78_701
    } else if fov == 172 {
        69_926
    } else if fov == 173 {
        61_162
    } else if fov == 174 {
        52_407
    } else if fov == 175 {
        43_660
    } else if fov == 176 {
        34_920
    } else if fov == 177 {
        26_185
    } else if fov == 178 {
        17_455
    } else if fov == 179 {
        8_726
    } else {
        0
    }
}

/// Looks up the perspective scale factor `1 / tan(fov / 2)`.
pub fn perspective_factor(fov: u32) -> (r: i64)
    requires
        1 <= fov <= 179,
    ensures
        r == persp_f(fov as int),
        8_726 <= r <= 114_588_650,
{
    if fov == 1 {
        114_588_650
    } else if fov == 2 {
        57_289_961
    } else if fov == 3 {
        38_188_459
    } else if fov == 4 {
        28_636_253
    } else if fov == 5 {
        22_903_765
    } else if fov == 6 {
        19_081_136
    } else if fov == 7 {
        16_349_855
    } else if fov == 8 {
        14_300_666
    } else if fov == 9 {
        12_706_204
    } else if fov == 10 {
        11_430_052
    } else if fov == 11 {
        10_385_397
    } else if fov == 12 {
        9_514_364
    } else if fov == 13 {
        8_776_887
    } else if fov == 14 {
        8_144_346
    } else if fov == 15 {
        7_595_754
    } else if fov == 16 {
        7_115_369
    } else if fov == 17 {
        6_691_156
    } else if fov == 18 {
        6_313_751
    } else if fov == 19 {
        5_975_764
    } else if fov == 20 {
        5_671_281
    } else if fov == 21 {
        5_395_517
    } else if fov == 22 {
        5_144_554
    } else if fov == 23 {
        4_915_157
    } else if fov == 24 {
        4_704_630
    } else if fov == 25 {
        4_510_708
    } else if fov == 26 {
        4_331_475
    } else if fov == 27 {
        4_165_299
    } else if fov == 28 {
        4_010_780
    } else if fov == 29 {
        3_866_713
    } else if fov == 30 {
        3_732_050
    } else if fov == 31 {
        3_605_883
    } else if fov == 32 {
        3_487_414
    } else if fov == 33 {
        3_375_943
    } else if fov == 34 {
        3_270_852
    } else if fov == 35 {
        3_171_594
    } else if fov == 36 {
        3_077_683
    } else if fov == 37 {
        2_988_684
    } else if fov == 38 {
        2_904_210
    } else if fov == 39 {
        2_823_912
    } else if fov == 40 {
        2_747_477
    } else if fov == 41 {
        2_674_621
    } else if fov == 42 {
        2_605_089
    } else if fov == 43 {
        2_538_647
    } else if fov == 44 {
        2_475_086
    } else if fov == 45 {
        2_414_213
    } else if fov == 46 {
        2_355_852
    } else if fov == 47 {
        2_299_842
    } else if fov == 48 {
        2_246_036
    } else if fov == 49 {
        2_194_299
    } else if fov == 50 {
        2_144_506
    } else if fov == 51 {
        2_096_543
    } else if fov == 52 {
        2_050_303
    } else if fov == 53 {
        2_005_689
    } else if fov == 54 {
        1_962_610
    } else if fov == 55 {
        1_920_982
    } else if fov == 56 {
        1_880_726
    } else if fov == 57 {
        1_841_770
    } else if fov == 58 {
        1_804_047
    } else if fov == 59 {
        1_767_494
    } else if fov == 60 {
        1_732_050
    } else if fov == 61 {
        1_697_663
    } else if fov == 62 {
        1_664_279
    } else if fov == 63 {
        1_631_851
    } else if fov == 64 {
        1_600_334
    } else if fov == 65 {
        1_569_685
    } else if fov == 66 {
        1_539_864
    } else if fov == 67 {
        1_510_835
    } else if fov == 68 {
        1_482_560
    } else if fov == 69 {
        1_455_009
    } else if fov == 70 {
        1_428_148
    } else if fov == 71 {
        1_401_948
    } else if fov == 72 {
        1_376_381
    } else if fov == 73 {
        1_351_422
    } else if fov == 74 {
        1_327_044
    } else if fov == 75 {
        1_303_225
    } else if fov == 76 {
        1_279_941
    } else if fov == 77 {
        1_257_172
    } else if fov == 78 {
        1_234_897
    } else if fov == 79 {
        1_213_097
    } else if fov == 80 {
        1_191_753
    } else if fov == 81 {
        1_170_849
    } else if fov == 82 {
        1_150_368
    } else if fov == 83 {
        1_130_294
    } else if fov == 84 {
        1_110_612
    } else if fov == 85 {
        1_091_308
    } else if fov == 86 {
        1_072_368
    } else if fov == 87 {
        1_053_780
    } else if fov == 88 {
        1_035_530
    } else if fov == 89 {
        1_017_607
    } else if fov == 90 {
        1_000_000
    } else if fov == 91 {
        982_697
    } else if fov == 92 {
        965_688
    } else if fov == 93 {
        948_964
    } else if fov == 94 {
        932_515
    } else if fov == 95 {
        916_331
    } else if fov == 96 {
        900_404
    } else if fov == 97 {
        884_725
    } else if fov == 98 {
        869_286
    } else if fov == 99 {
        854_080
    } else if fov == 100 {
        839_099
    } else if fov == 101 {
        824_336
    } else if fov == 102 {
        809_784
    } else if fov == 103 {
        795_435
    } else if fov == 104 {
        781_285
    } else if fov == 105 {
        767_326
    } else if fov == 106 {
        753_554
    } else if fov == 107 {
        739_961
    } else if fov == 108 {
        726_542
    } else if fov == 109 {
        713_293
    } else if fov == 110 {
        700_207
    } else if fov == 111 {
        687_280
    } else if fov == 112 {
        674_508
    } else if fov == 113 {
        661_885
    } else if fov == 114 {
        649_407
    } else if fov == 115 {
        637_070
    } else if fov == 116 {
        624_869
    } else if fov == 117 {
        612_800
    } else if fov == 118 {
        600_860
    } else if fov == 119 {
        589_045
    } else if fov == 120 {
        577_350
    } else if fov == 121 {
        565_772
    } else if fov == 122 {
        554_309
    } else if fov == 123 {
        542_955
    } else if fov == 124 {
        531_709
    } else if fov == 125 {
        520_567
    } else if fov == 126 {
        509_525
    } else if fov == 127 {
        498_581
    } else if fov == 128 {
        487_732
    } else if fov == 129 {
        476_975
    } else if fov == 130 {
        466_307
    } else if fov == 131 {
        455_726
    } else if fov == 132 {
        445_228
    } else if fov == 133 {
        434_812
    } else if fov == 134 {
        424_474
    } else if fov == 135 {
        414_213
    } else if fov == 136 {
        404_026
    } else if fov == 137 {
        393_910
    } else if fov == 138 {
        383_864
    } else if fov == 139 {
        373_884
    } else if fov == 140 {
        363_970
    } else if fov == 141 {
        354_118
    } else if fov == 142 {
        344_327
    } else if fov == 143 {
        334_595
    } else if fov == 144 {
        324_919
    } else if fov == 145 {
        315_298
    } else if fov == 146 {
        305_730
    } else if fov == 147 {
        296_213
    } else if fov == 148 {
        286_745
    } else if fov == 149 {
        277_324
    } else if fov == 150 {
        267_949
    } else if fov == 151 {
        258_617
    } else if fov == 152 {
        249_328
    } else if fov == 153 {
        240_078
    } else if fov == 154 {
        230_868
    } else if fov == 155 {
        221_694
    } else if fov == 156 {
        212_556
    } else if fov == 157 {
        203_452
    } else if fov == 158 {
        194_380
    } else if fov == 159 {
        185_339
    } else if fov == 160 {
        176_326
    } else if fov == 161 {
        167_342
    } else if fov == 162 {
        158_384
    } else if fov == 163 {
        149_451
    } else if fov == 164 {
        140_540
    } else if fov == 165 {
        131_652
    } else if fov == 166 {
        122_784
    } else if fov == 167 {
        113_935
    } else if fov == 168 {
        105_104
    } else if fov == 169 {
        96_289
    } else if fov == 170 {
        87_488
    } else if fov == 171 {
        78_701
    } else if fov == 172 {
        69_926
    } else if fov == 173 {
        61_162
    } else if fov == 174 {
        52_407
    } else if fov == 175 {
        43_660
    } else if fov == 176 {
        34_920
    } else if fov == 177 {
        26_185
    } else if fov == 178 {
        17_455
    } else if fov == 179 {
        8_726
    } else {
        0
    }
}

} // verus!
