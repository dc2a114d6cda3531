use crate::graph::ZEROED_PREFIX;
use vstd::arithmetic::div_mod::lemma_add_mod_noop;
use vstd::arithmetic::div_mod::lemma_small_mod;
use vstd::prelude::*;

verus! {

/// The recurrence `f(i) = f(i-1) + f(i-2)` with `f(0) = 0` and `f(1) = 1`.
pub open spec fn fib(n: nat) -> nat
    decreases n,
{
    if n <= 1 {
        n
    } else {
        fib((n - 1) as nat) + fib((n - 2) as nat)
    }
}

/// The value of the recurrence as a 64-bit slot holds it: reduced modulo 2^64.
#[verifier::opaque]
pub open spec fn wrapped_fib(n: nat) -> u64 {
    (fib(n) % 0x1_0000_0000_0000_0000) as u64
}

/// The largest index whose recurrence value still fits a 64-bit slot.
pub const LAST_EXACT_INDEX: u64 = 93;

/// The recurrence never decreases.
pub proof fn lemma_fib_monotonic(i: nat, j: nat)
    requires
        i <= j,
    ensures
        fib(i) <= fib(j),
    decreases j,
{
    if i < j {
        if j >= 2 {
            lemma_fib_monotonic(i, (j - 1) as nat);
        }
    }
}

/// Past index 0 the recurrence is positive.
pub proof fn lemma_fib_positive(n: nat)
    requires
        n >= 1,
    ensures
        fib(n) >= 1,
{
    lemma_fib_monotonic(1, n);
}

/// The value at the last exact index, reached by unfolding the recurrence one index at a time.
proof fn lemma_fib_last_exact()
    ensures
        fib(92) == 7540113804746346429,
        fib(93) == 12200160415121876738,
{
    assert(fib(0) == 0);
    assert(fib(1) == 1);
    assert(fib(2) == 1);
    assert(fib(3) == 2);
    assert(fib(4) == 3);
    assert(fib(5) == 5);
    assert(fib(6) == 8);
    assert(fib(7) == 13);
    assert(fib(8) == 21);
    assert(fib(9) == 34);
    assert(fib(10) == 55);
    assert(fib(11) == 89);
    assert(fib(12) == 144);
    assert(fib(13) == 233);
    assert(fib(14) == 377);
    assert(fib(15) == 610);
    assert(fib(16) == 987);
    assert(fib(17) == 1597);
    assert(fib(18) == 2584);
    assert(fib(19) == 4181);
    assert(fib(20) == 6765);
    assert(fib(21) == 10946);
    assert(fib(22) == 17711);
    assert(fib(23) == 28657);
    assert(fib(24) == 46368);
    assert(fib(25) == 75025);
    assert(fib(26) == 121393);
    assert(fib(27) == 196418);
    assert(fib(28) == 317811);
    assert(fib(29) == 514229);
    assert(fib(30) == 832040);
    assert(fib(31) == 1346269);
    assert(fib(32) == 2178309);
    assert(fib(33) == 3524578);
    assert(fib(34) == 5702887);
    assert(fib(35) == 9227465);
    assert(fib(36) == 14930352);
    assert(fib(37) == 24157817);
    assert(fib(38) == 39088169);
    assert(fib(39) == 63245986);
    assert(fib(40) == 102334155);
    assert(fib(41) == 165580141);
    assert(fib(42) == 267914296);
    assert(fib(43) == 433494437);
    assert(fib(44) == 701408733);
    assert(fib(45) == 1134903170);
    assert(fib(46) == 1836311903);
    assert(fib(47) == 2971215073);
    assert(fib(48) == 4807526976);
    assert(fib(49) == 7778742049);
    assert(fib(50) == 12586269025);
    assert(fib(51) == 20365011074);
    assert(fib(52) == 32951280099);
    assert(fib(53) == 53316291173);
    assert(fib(54) == 86267571272);
    assert(fib(55) == 139583862445);
    assert(fib(56) == 225851433717);
    assert(fib(57) == 365435296162);
    assert(fib(58) == 591286729879);
    assert(fib(59) == 956722026041);
    assert(fib(60) == 1548008755920);
    assert(fib(61) == 2504730781961);
    assert(fib(62) == 4052739537881);
    assert(fib(63) == 6557470319842);
    assert(fib(64) == 10610209857723);
    assert(fib(65) == 17167680177565);
    assert(fib(66) == 27777890035288);
    assert(fib(67) == 44945570212853);
    assert(fib(68) == 72723460248141);
    assert(fib(69) == 117669030460994);
    assert(fib(70) == 190392490709135);
    assert(fib(71) == 308061521170129);
    assert(fib(72) == 498454011879264);
    assert(fib(73) == 806515533049393);
    assert(fib(74) == 1304969544928657);
    assert(fib(75) == 2111485077978050);
    assert(fib(76) == 3416454622906707);
    assert(fib(77) == 5527939700884757);
    assert(fib(78) == 8944394323791464);
    assert(fib(79) == 14472334024676221);
    assert(fib(80) == 23416728348467685);
    assert(fib(81) == 37889062373143906);
    assert(fib(82) == 61305790721611591);
    assert(fib(83) == 99194853094755497);
    assert(fib(84) == 160500643816367088);
    assert(fib(85) == 259695496911122585);
    assert(fib(86) == 420196140727489673);
    assert(fib(87) == 679891637638612258);
    assert(fib(88) == 1100087778366101931);
    assert(fib(89) == 1779979416004714189);
    assert(fib(90) == 2880067194370816120);
    assert(fib(91) == 4660046610375530309);
    assert(fib(92) == 7540113804746346429);
    assert(fib(93) == 12200160415121876738);
}

/// Up to `LAST_EXACT_INDEX` a slot holds the recurrence value itself.
pub proof fn lemma_wrapped_exact(n: nat)
    requires
        n <= LAST_EXACT_INDEX,
    ensures
        wrapped_fib(n) == fib(n),
{
    reveal(wrapped_fib);
    lemma_fib_last_exact();
    lemma_fib_monotonic(n, 93);
    lemma_small_mod(fib(n), 0x1_0000_0000_0000_0000);
}

/// Slots obey the recurrence with wrapping addition, at every index from 2 on.
pub proof fn lemma_wrapped_step(n: nat)
    requires
        n >= 2,
    ensures
        wrapped_fib(n) == (wrapped_fib((n - 1) as nat) + wrapped_fib((n - 2) as nat))
            % 0x1_0000_0000_0000_0000,
{
    reveal(wrapped_fib);
    lemma_add_mod_noop(
        fib((n - 1) as nat) as int,
        fib((n - 2) as nat) as int,
        0x1_0000_0000_0000_0000,
    );
}

/// Slots obey the recurrence exactly while the sum fits: for `2 <= n <= LAST_EXACT_INDEX`
/// the value at `n` is the plain sum of the values at `n - 1` and `n - 2`.
pub proof fn lemma_wrapped_sum_exact(n: nat)
    requires
        2 <= n <= LAST_EXACT_INDEX,
    ensures
        wrapped_fib(n) == wrapped_fib((n - 1) as nat) + wrapped_fib((n - 2) as nat),
{
    lemma_wrapped_exact(n);
    lemma_wrapped_exact((n - 1) as nat);
    lemma_wrapped_exact((n - 2) as nat);
}

/// One row of the residue table: the slot value at `n` from the two before it.
proof fn lemma_residue_row(n: nat, below: u64, last: u64)
    requires
        n >= 2,
        wrapped_fib((n - 2) as nat) == below,
        wrapped_fib((n - 1) as nat) == last,
    ensures
        wrapped_fib(n) == (below + last) % 0x1_0000_0000_0000_0000,
{
    lemma_wrapped_step(n);
}

/// The slot values from index 94 to 129, row by row: none is zero.
proof fn lemma_residues_to_129()
    ensures
        forall|i: nat| 94 <= i < 130 ==> #[trigger] wrapped_fib(i) != 0,
        wrapped_fib(128) == 18154666814248790725,
        wrapped_fib(129) == 8102862946581596898,
{
    lemma_fib_last_exact();
    lemma_wrapped_exact(92);
    lemma_wrapped_exact(93);
    lemma_residue_row(94, 7540113804746346429, 12200160415121876738);
    assert(wrapped_fib(94) == 1293530146158671551);
    lemma_residue_row(95, 12200160415121876738, 1293530146158671551);
    assert(wrapped_fib(95) == 13493690561280548289);
    lemma_residue_row(96, 1293530146158671551, 13493690561280548289);
    assert(wrapped_fib(96) == 14787220707439219840);
    lemma_residue_row(97, 13493690561280548289, 14787220707439219840);
    assert(wrapped_fib(97) == 9834167195010216513);
    lemma_residue_row(98, 14787220707439219840, 9834167195010216513);
    assert(wrapped_fib(98) == 6174643828739884737);
    lemma_residue_row(99, 9834167195010216513, 6174643828739884737);
    assert(wrapped_fib(99) == 16008811023750101250);
    lemma_residue_row(100, 6174643828739884737, 16008811023750101250);
    assert(wrapped_fib(100) == 3736710778780434371);
    lemma_residue_row(101, 16008811023750101250, 3736710778780434371);
    assert(wrapped_fib(101) == 1298777728820984005);
    lemma_residue_row(102, 3736710778780434371, 1298777728820984005);
    assert(wrapped_fib(102) == 5035488507601418376);
    lemma_residue_row(103, 1298777728820984005, 5035488507601418376);
    assert(wrapped_fib(103) == 6334266236422402381);
    lemma_residue_row(104, 5035488507601418376, 6334266236422402381);
    assert(wrapped_fib(104) == 11369754744023820757);
    lemma_residue_row(105, 6334266236422402381, 11369754744023820757);
    assert(wrapped_fib(105) == 17704020980446223138);
    lemma_residue_row(106, 11369754744023820757, 17704020980446223138);
    assert(wrapped_fib(106) == 10627031650760492279);
    lemma_residue_row(107, 17704020980446223138, 10627031650760492279);
    assert(wrapped_fib(107) == 9884308557497163801);
    lemma_residue_row(108, 10627031650760492279, 9884308557497163801);
    assert(wrapped_fib(108) == 2064596134548104464);
    lemma_residue_row(109, 9884308557497163801, 2064596134548104464);
    assert(wrapped_fib(109) == 11948904692045268265);
    lemma_residue_row(110, 2064596134548104464, 11948904692045268265);
    assert(wrapped_fib(110) == 14013500826593372729);
    lemma_residue_row(111, 11948904692045268265, 14013500826593372729);
    assert(wrapped_fib(111) == 7515661444929089378);
    lemma_residue_row(112, 14013500826593372729, 7515661444929089378);
    assert(wrapped_fib(112) == 3082418197812910491);
    lemma_residue_row(113, 7515661444929089378, 3082418197812910491);
    assert(wrapped_fib(113) == 10598079642741999869);
    lemma_residue_row(114, 3082418197812910491, 10598079642741999869);
    assert(wrapped_fib(114) == 13680497840554910360);
    lemma_residue_row(115, 10598079642741999869, 13680497840554910360);
    assert(wrapped_fib(115) == 5831833409587358613);
    lemma_residue_row(116, 13680497840554910360, 5831833409587358613);
    assert(wrapped_fib(116) == 1065587176432717357);
    lemma_residue_row(117, 5831833409587358613, 1065587176432717357);
    assert(wrapped_fib(117) == 6897420586020075970);
    lemma_residue_row(118, 1065587176432717357, 6897420586020075970);
    assert(wrapped_fib(118) == 7963007762452793327);
    lemma_residue_row(119, 6897420586020075970, 7963007762452793327);
    assert(wrapped_fib(119) == 14860428348472869297);
    lemma_residue_row(120, 7963007762452793327, 14860428348472869297);
    assert(wrapped_fib(120) == 4376692037216111008);
    lemma_residue_row(121, 14860428348472869297, 4376692037216111008);
    assert(wrapped_fib(121) == 790376311979428689);
    lemma_residue_row(122, 4376692037216111008, 790376311979428689);
    assert(wrapped_fib(122) == 5167068349195539697);
    lemma_residue_row(123, 790376311979428689, 5167068349195539697);
    assert(wrapped_fib(123) == 5957444661174968386);
    lemma_residue_row(124, 5167068349195539697, 5957444661174968386);
    assert(wrapped_fib(124) == 11124513010370508083);
    lemma_residue_row(125, 5957444661174968386, 11124513010370508083);
    assert(wrapped_fib(125) == 17081957671545476469);
    lemma_residue_row(126, 11124513010370508083, 17081957671545476469);
    assert(wrapped_fib(126) == 9759726608206432936);
    lemma_residue_row(127, 17081957671545476469, 9759726608206432936);
    assert(wrapped_fib(127) == 8394940206042357789);
    lemma_residue_row(128, 9759726608206432936, 8394940206042357789);
    assert(wrapped_fib(128) == 18154666814248790725);
    lemma_residue_row(129, 8394940206042357789, 18154666814248790725);
    assert(wrapped_fib(129) == 8102862946581596898);
}

/// The slot values from index 130 to 164, row by row: none is zero.
proof fn lemma_residues_to_164()
    ensures
        forall|i: nat| 130 <= i < 165 ==> #[trigger] wrapped_fib(i) != 0,
        wrapped_fib(163) == 8247890213920313141,
        wrapped_fib(164) == 7278316983633677837,
{
    lemma_residues_to_129();
    lemma_residue_row(130, 18154666814248790725, 8102862946581596898);
    assert(wrapped_fib(130) == 7810785687120836007);
    lemma_residue_row(131, 8102862946581596898, 7810785687120836007);
    assert(wrapped_fib(131) == 15913648633702432905);
    lemma_residue_row(132, 7810785687120836007, 15913648633702432905);
    assert(wrapped_fib(132) == 5277690247113717296);
    lemma_residue_row(133, 15913648633702432905, 5277690247113717296);
    assert(wrapped_fib(133) == 2744594807106598585);
    lemma_residue_row(134, 5277690247113717296, 2744594807106598585);
    assert(wrapped_fib(134) == 8022285054220315881);
    lemma_residue_row(135, 2744594807106598585, 8022285054220315881);
    assert(wrapped_fib(135) == 10766879861326914466);
    lemma_residue_row(136, 8022285054220315881, 10766879861326914466);
    assert(wrapped_fib(136) == 342420841837678731);
    lemma_residue_row(137, 10766879861326914466, 342420841837678731);
    assert(wrapped_fib(137) == 11109300703164593197);
    lemma_residue_row(138, 342420841837678731, 11109300703164593197);
    assert(wrapped_fib(138) == 11451721545002271928);
    lemma_residue_row(139, 11109300703164593197, 11451721545002271928);
    assert(wrapped_fib(139) == 4114278174457313509);
    lemma_residue_row(140, 11451721545002271928, 4114278174457313509);
    assert(wrapped_fib(140) == 15565999719459585437);
    lemma_residue_row(141, 4114278174457313509, 15565999719459585437);
    assert(wrapped_fib(141) == 1233533820207347330);
    lemma_residue_row(142, 15565999719459585437, 1233533820207347330);
    assert(wrapped_fib(142) == 16799533539666932767);
    lemma_residue_row(143, 1233533820207347330, 16799533539666932767);
    assert(wrapped_fib(143) == 18033067359874280097);
    lemma_residue_row(144, 16799533539666932767, 18033067359874280097);
    assert(wrapped_fib(144) == 16385856825831661248);
    lemma_residue_row(145, 18033067359874280097, 16385856825831661248);
    assert(wrapped_fib(145) == 15972180111996389729);
    lemma_residue_row(146, 16385856825831661248, 15972180111996389729);
    assert(wrapped_fib(146) == 13911292864118499361);
    lemma_residue_row(147, 15972180111996389729, 13911292864118499361);
    assert(wrapped_fib(147) == 11436728902405337474);
    lemma_residue_row(148, 13911292864118499361, 11436728902405337474);
    assert(wrapped_fib(148) == 6901277692814285219);
    lemma_residue_row(149, 11436728902405337474, 6901277692814285219);
    assert(wrapped_fib(149) == 18338006595219622693);
    lemma_residue_row(150, 6901277692814285219, 18338006595219622693);
    assert(wrapped_fib(150) == 6792540214324356296);
    lemma_residue_row(151, 18338006595219622693, 6792540214324356296);
    assert(wrapped_fib(151) == 6683802735834427373);
    lemma_residue_row(152, 6792540214324356296, 6683802735834427373);
    assert(wrapped_fib(152) == 13476342950158783669);
    lemma_residue_row(153, 6683802735834427373, 13476342950158783669);
    assert(wrapped_fib(153) == 1713401612283659426);
    lemma_residue_row(154, 13476342950158783669, 1713401612283659426);
    assert(wrapped_fib(154) == 15189744562442443095);
    lemma_residue_row(155, 1713401612283659426, 15189744562442443095);
    assert(wrapped_fib(155) == 16903146174726102521);
    lemma_residue_row(156, 15189744562442443095, 16903146174726102521);
    assert(wrapped_fib(156) == 13646146663458994000);
    lemma_residue_row(157, 16903146174726102521, 13646146663458994000);
    assert(wrapped_fib(157) == 12102548764475544905);
    lemma_residue_row(158, 13646146663458994000, 12102548764475544905);
    assert(wrapped_fib(158) == 7301951354224987289);
    lemma_residue_row(159, 12102548764475544905, 7301951354224987289);
    assert(wrapped_fib(159) == 957756044990980578);
    lemma_residue_row(160, 7301951354224987289, 957756044990980578);
    assert(wrapped_fib(160) == 8259707399215967867);
    lemma_residue_row(161, 957756044990980578, 8259707399215967867);
    assert(wrapped_fib(161) == 9217463444206948445);
    lemma_residue_row(162, 8259707399215967867, 9217463444206948445);
    assert(wrapped_fib(162) == 17477170843422916312);
    lemma_residue_row(163, 9217463444206948445, 17477170843422916312);
    assert(wrapped_fib(163) == 8247890213920313141);
    lemma_residue_row(164, 17477170843422916312, 8247890213920313141);
    assert(wrapped_fib(164) == 7278316983633677837);
}

/// The slot values from index 165 to 199, row by row: none is zero.
proof fn lemma_residues_to_199()
    ensures
        forall|i: nat| 165 <= i < 200 ==> #[trigger] wrapped_fib(i) != 0,
{
    lemma_residues_to_164();
    lemma_residue_row(165, 8247890213920313141, 7278316983633677837);
    assert(wrapped_fib(165) == 15526207197553990978);
    lemma_residue_row(166, 7278316983633677837, 15526207197553990978);
    assert(wrapped_fib(166) == 4357780107478117199);
    lemma_residue_row(167, 15526207197553990978, 4357780107478117199);
    assert(wrapped_fib(167) == 1437243231322556561);
    lemma_residue_row(168, 4357780107478117199, 1437243231322556561);
    assert(wrapped_fib(168) == 5795023338800673760);
    lemma_residue_row(169, 1437243231322556561, 5795023338800673760);
    assert(wrapped_fib(169) == 7232266570123230321);
    lemma_residue_row(170, 5795023338800673760, 7232266570123230321);
    assert(wrapped_fib(170) == 13027289908923904081);
    lemma_residue_row(171, 7232266570123230321, 13027289908923904081);
    assert(wrapped_fib(171) == 1812812405337582786);
    lemma_residue_row(172, 13027289908923904081, 1812812405337582786);
    assert(wrapped_fib(172) == 14840102314261486867);
    lemma_residue_row(173, 1812812405337582786, 14840102314261486867);
    assert(wrapped_fib(173) == 16652914719599069653);
    lemma_residue_row(174, 14840102314261486867, 16652914719599069653);
    assert(wrapped_fib(174) == 13046272960151004904);
    lemma_residue_row(175, 16652914719599069653, 13046272960151004904);
    assert(wrapped_fib(175) == 11252443606040522941);
    lemma_residue_row(176, 13046272960151004904, 11252443606040522941);
    assert(wrapped_fib(176) == 5851972492481976229);
    lemma_residue_row(177, 11252443606040522941, 5851972492481976229);
    assert(wrapped_fib(177) == 17104416098522499170);
    lemma_residue_row(178, 5851972492481976229, 17104416098522499170);
    assert(wrapped_fib(178) == 4509644517294923783);
    lemma_residue_row(179, 17104416098522499170, 4509644517294923783);
    assert(wrapped_fib(179) == 3167316542107871337);
    lemma_residue_row(180, 4509644517294923783, 3167316542107871337);
    assert(wrapped_fib(180) == 7676961059402795120);
    lemma_residue_row(181, 3167316542107871337, 7676961059402795120);
    assert(wrapped_fib(181) == 10844277601510666457);
    lemma_residue_row(182, 7676961059402795120, 10844277601510666457);
    assert(wrapped_fib(182) == 74494587203909961);
    lemma_residue_row(183, 10844277601510666457, 74494587203909961);
    assert(wrapped_fib(183) == 10918772188714576418);
    lemma_residue_row(184, 74494587203909961, 10918772188714576418);
    assert(wrapped_fib(184) == 10993266775918486379);
    lemma_residue_row(185, 10918772188714576418, 10993266775918486379);
    assert(wrapped_fib(185) == 3465294890923511181);
    lemma_residue_row(186, 10993266775918486379, 3465294890923511181);
    assert(wrapped_fib(186) == 14458561666841997560);
    lemma_residue_row(187, 3465294890923511181, 14458561666841997560);
    assert(wrapped_fib(187) == 17923856557765508741);
    lemma_residue_row(188, 14458561666841997560, 17923856557765508741);
    assert(wrapped_fib(188) == 13935674150897954685);
    lemma_residue_row(189, 17923856557765508741, 13935674150897954685);
    assert(wrapped_fib(189) == 13412786634953911810);
    lemma_residue_row(190, 13935674150897954685, 13412786634953911810);
    assert(wrapped_fib(190) == 8901716712142314879);
    lemma_residue_row(191, 13412786634953911810, 8901716712142314879);
    assert(wrapped_fib(191) == 3867759273386675073);
    lemma_residue_row(192, 8901716712142314879, 3867759273386675073);
    assert(wrapped_fib(192) == 12769475985528989952);
    lemma_residue_row(193, 3867759273386675073, 12769475985528989952);
    assert(wrapped_fib(193) == 16637235258915665025);
    lemma_residue_row(194, 12769475985528989952, 16637235258915665025);
    assert(wrapped_fib(194) == 10959967170735103361);
    lemma_residue_row(195, 16637235258915665025, 10959967170735103361);
    assert(wrapped_fib(195) == 9150458355941216770);
    lemma_residue_row(196, 10959967170735103361, 9150458355941216770);
    assert(wrapped_fib(196) == 1663681452966768515);
    lemma_residue_row(197, 9150458355941216770, 1663681452966768515);
    assert(wrapped_fib(197) == 10814139808907985285);
    lemma_residue_row(198, 1663681452966768515, 10814139808907985285);
    assert(wrapped_fib(198) == 12477821261874753800);
    lemma_residue_row(199, 10814139808907985285, 12477821261874753800);
    assert(wrapped_fib(199) == 4845216997073187469);
}

/// No index from 1 on inside the zeroed prefix has the slot value zero, so there a zero
/// slot always means "not yet computed".
pub proof fn lemma_wrapped_nonzero(n: nat)
    requires
        1 <= n < ZEROED_PREFIX,
    ensures
        wrapped_fib(n) != 0,
{
    if n <= 93 {
        lemma_wrapped_exact(n);
        lemma_fib_positive(n);
    } else if n < 130 {
        lemma_residues_to_129();
    } else if n < 165 {
        lemma_residues_to_164();
    } else {
        lemma_residues_to_199();
    }
}

} // verus!
