//! The parameter tables of the Poseidon permutation over the BN254 scalar
//! field, for state widths two to five. Every element takes four 64-bit
//! limbs, least significant first. Matrices are stored row after row. A
//! table of more than 128 elements is cut into parts of that size.

use vstd::prelude::*;

verus! {

/// Round constants for state width 2.
pub const T2_C: [u64; 288] = [
    0x6c7dc0dbd0abd7a7, 0xa71aa177534cdd1b, 0xfe1faaba294cba38, 0x09c46e9ec68e9bd4,
    0x3c1d83ffa604cb81, 0xc5142b3ae405b834, 0x2a97ed937f3135cf, 0x0c0356530896eec4,
    0x432507fc740a87c4, 0x29f7714fc26d56c0, 0xaa422952fcc5b333, 0x250f5116a417d76a,
    0xf458d850bb4a949f, 0x7a373b9b8225a384, 0x6659626c33c8213f, 0x264065ad87572e01,
    0x39e33fda24bd42af, 0x29b294e4400376da, 0x6ce909ff94b87507, 0x2bb8e94ad8d8adca,
    0xd4f85fbb09a5dbae, 0x8f6201b21ad5d239, 0xc813c15291d46a32, 0x19051065d05d861e,
    0xcdf4776cdff3434a, 0x08d4d1c017165943, 0x8f5bd4550aac7b8e, 0x245bd0617aa44961,
    0xc36ad091d491a88f, 0x48a1570155e0f2b1, 0x9d8acbf5b02131e0, 0x09fb1a1118074ff7,
    0x484ab8973ff66d88, 0x018ea192f05e54c1, 0x972741952f78b7eb, 0x234ab504bbae8198,
    0x835fbcfe0f2a324c, 0x48f9c8c6439f42a7, 0xae3d4c3513a282fd, 0x01f66e509b84c355,
    0x27a920ccc43f91fa, 0x5af0efdc4910f541, 0x02cf00dd9ee62d1a, 0x1b22f5d69d725e60,
    0x7db91f65a6dfc23f, 0xfa659ecd5b47a78a, 0x852968b7f1c4f490, 0x0252b55edead135f,
    0x6892a2c0487d7ff1, 0xca4b53303f21871f, 0xd0677c2a047fea8e, 0x1773ae2e1637c92a,
    0x45d5ec9f7ac732f5, 0x666eac093cf77156, 0x2a79e76faeef6f87, 0x2d57b02906cd0ab8,
    0x696f834596313d93, 0x8fb061317faffa03, 0xe8b2ddb8fc391a49, 0x0a16f3a62824b281,
    0x1e26b08e36a08591, 0xe0587757b788eb7f, 0x8d2a37834ab747ea, 0x1666f525f7f4b698,
    0xe541d912ebe17b76, 0x7f5c82128e1dfec3, 0x13231f0ca25b50b5, 0x05da44f8e0a3b8bb,
    0x24dc7861633bc95a, 0xdbfb5f39624cdd95, 0x191bac8bdb3e0144, 0x09a39ba9993303ba,
    0x828dfd2ed0920a68, 0x00e85a6d158f9f2a, 0x30ee6b418c0029e1, 0x06c0fb824a19202d,
    0x324283bf9522395d, 0x8adc660627e52bb3, 0xa9776b4492cb3b41, 0x0387d8e056b2b176,
    0xbf7156f5c2dc9684, 0x3013cf1b62358396, 0x28a7a37bea40d6ac, 0x147a1af82036ef5b,
    0xf9227e4cb7c6f81b, 0x88e8dff90a7a0525, 0x1bd0482bd3f0613d, 0x3038d92060daeaaf,
    0x89a97245532908f5, 0xcf6c223339006f97, 0x39a323f9e5d65616, 0x072940aa1d538a5a,
    0x464ed6f15e2b9023, 0x3a367ba216af048f, 0x70b8a879aedec49b, 0x2d3d604949f4e14c,
    0x9746a176641e73c5, 0x2dcf7c7287b982e4, 0x80774c2b4d18309b, 0x225b9e4f35c7549f,
    0x0d139bbbf6c70414, 0x7dfe81c75a09709f, 0x190095a2344828e3, 0x1ea781288fdf13b2,
    0x3502e5b6cb4aeeeb, 0x0dc6890d4cee128b, 0x2b202405458468b9, 0x08e96c3e7e8de443,
    0x3e85d55b366c805f, 0x29ce889a64a4ac18, 0x6dcaae57d070b49d, 0x05b43da7c8aa29af,
    0xcdde724d8f610e52, 0xdcef7c996e7a51c7, 0xf7ba4861f1ad5a48, 0x00bec98a034e3b8a,
    0x80be384ee4ebe72a, 0x35b30fcae3030394, 0x2b9f84a5d0575fc4, 0x2eb67ccfa29e2b42,
    0x2c4e8749a13915ca, 0x4a7105c631c86ecd, 0xf04eedee5d70bd08, 0x102bbdc21a3f147b,
    0x8e3115cad3582f79, 0x127ae38915280fbb, 0xfd5bbe8d8562c1bf, 0x274bc16c88721bab,
    0xb831611351bd9938, 0x1c8850b409d4928a, 0x283de04511f76910, 0x185cece417549b25,
    0x7059ac0a32c36007, 0xf4c823674abe1773, 0xbc9cfb55c7faacb4, 0x13c73fb043f7e978,
    0x933c4e5969481d70, 0x01cdd4cef5a4145c, 0x360c9c60595673e2, 0x24b3a1d83308742b,
    0xf0f48d7a3744398b, 0xcdc8266a070f866e, 0xaa2a8f0f42425bcc, 0x18b5ae94df9ec97a,
    0xe5f099f2d5905cb4, 0xbe38169b2d8522d9, 0xcc7cb1fac38501ab, 0x20eb398cb958cc2c,
    0xa8b8eef2f4e29344, 0xbbbad1f4dcaa2e78, 0x2c2c7c0c78a02b22, 0x1e588dd3ec8b0d25,
    0x42331d4e3043a0a6, 0xcd4217ffbaf294ca, 0x1bf3ab2e3fb40818, 0x0f8bf3bd6c22ba3b,
    0xc9f617021109cec3, 0x0bee9dc184d25eab, 0x1d648f46bad01dd1, 0x0388c9fcf30fc284,
    0x441a90cec83b6454, 0x53dac263da793555, 0x7befa8b232f15c88, 0x2bb7f397c5941ac6,
    0x0bb3f0181c59fb21, 0xb43fb17db0e49925, 0x8874a4a31ef6a7be, 0x17f389b52f9ea7a9,
    0x5f20c875a0b28c7c, 0xec24b7ad14d17b14, 0x1fb10561d560a9ae, 0x03a2090eacb897a3,
    0x9619dcbee17ba099, 0x7cca4714399430e0, 0x1fe4bf64553389e6, 0x0c398534f0eb580f,
    0x7a5cebf4822328c4, 0xfa7f11ee63f3ee77, 0x7f181259e3635fef, 0x07095ac9fda46afa,
    0xcd060958b1ced683, 0x9f82568abe2b33d1, 0x2b69cbc8bc0d5d80, 0x2046f7cf1c8f13ef,
    0xcb660c4cb0f69107, 0x501acb68d56138fb, 0xde6e7f92f9097296, 0x2c274136a5de2849,
    0x8d0f4507b3cf74c3, 0x7b0383094cb6467e, 0xeceef23afc6f16ec, 0x1c4d5178acb5c6b6,
    0xb909325e28f7b8d3, 0xa7dd9701507dcbe8, 0xed116785b92c63a6, 0x065b1447d0d64cec,
    0x40e023e7b72a1961, 0x9c9bfa3334389513, 0xc81a193d97933040, 0x2265d7e244881220,
    0x6850502256b30aba, 0xfca8a6449b37669f, 0x37a1c76e67f9cec6, 0x15b12b355af7e056,
    0xec2582d9075b4387, 0x35c2b48c687af168, 0xe4d3e3029497b88f, 0x1a1522fecc6ae028,
    0x9240803076f58f26, 0xbcc53b0a9350e258, 0xe472a641a053c414, 0x22f56e79e81b7496,
    0xd1ee278afd17fd0c, 0x2324672a17ab8417, 0xe7aabad692ceac4e, 0x202ddb66d0988994,
    0x72f84510f73edfce, 0xb96cd428ae77bdea, 0x1a8e30208f8f1158, 0x12b0701e8813c5b2,
    0x9df7e84e53eeee7e, 0xfe693fdde0eb1e1a, 0x7c8838ceb26b84c9, 0x1e63fd20e706e140,
    0x0088280dd1896259, 0xaa11500676ac7e57, 0xfd15af174c39f9d9, 0x20a16c5a86256def,
    0x27558fb9bae0a3eb, 0x563e0435c0f2f37c, 0xad5aca2eaaee38da, 0x1c8f8bf8e153da55,
    0x3880124fddf187c9, 0x159c1983213e416c, 0x3aabcfdcc4fbb67e, 0x0d7732687bb7bf5f,
    0x35f6ccef9e2f6865, 0xe108b3b60b6475d8, 0x2edcbbbf8264b195, 0x0cdd04475a86999a,
    0x53560c214fe3cbcd, 0x0e3bfa43f547b411, 0x4c63a88c2ed3f9ba, 0x2fe65586cd4e754b,
    0xf4f2837c727ad4d9, 0x62399815d98c56db, 0x4e659128ec29261f, 0x0503cf963c827360,
    0xf1475c8742cb334c, 0x400b393ef5fdf38e, 0x78379936f6d97ca9, 0x1ee48ea27839061b,
    0xd73b2c1c5c0413f9, 0xc579e83563d04859, 0x2d7cd5bf0197c575, 0x1a423f8d8fc892b2,
    0xae465636abb97ec7, 0xe0e8d8ab76c95616, 0x2f00e61778972a7b, 0x069a0da50133e995,
    0xcf2b9909165d8614, 0x964c2f94dfbf0e44, 0x91c65a0976356f67, 0x1bf7879dd42f2cbb,
    0x805fffd4547a0b98, 0x64e25056267f6c4a, 0x5c8fc0afe610be71, 0x1b23dccf48582206,
    0xe3011f627bec7c2e, 0x409e564c9c4f3671, 0x0e0c2e004ce5c5a4, 0x2ebe90d6f6fdca42,
    0x290b2f4d6c6863f7, 0x7687760f3a2fa0da, 0xdfebe81d20c376e7, 0x167cd6930535a816,
    0x3c8a966d4f90264b, 0xf19f1210374cc64e, 0x4ccc8b68b79df285, 0x08865c10f4a633c5,
    0xa72cc6b833b7893b, 0x721b37e071851b03, 0x1ca25abb39d78894, 0x1de902fbc0bf0195,
    0x676b16a31eab4667, 0xf67c988dd5bf0137, 0x852eb22da642e495, 0x0e3eca007699dd0f,
];

/// Sparse partial-round coefficients for state width 2, elements 0 to 127.
pub const T2_S_0: [u64; 512] = [
    0xbceca70bd2af7ad5, 0xaf07f38af8c952a7, 0xec10345351a23a3a, 0x066f6f85d6f68a85,
    0x3e45de825ff8cb5f, 0x2ec33b3cbd590c79, 0xfd52998d6a5be6f1, 0x1fd20dcb58503896,
    0x4a11b5be4e0a1efb, 0x7096c1e6452d33d6, 0x1e97f0cdde8f202a, 0x08c8295df0ba1186,
    0xbceca70bd2af7ad5, 0xaf07f38af8c952a7, 0xec10345351a23a3a, 0x066f6f85d6f68a85,
    0x401b996421e89835, 0x47e20e05a76bc12b, 0xd165d2b08b95cf89, 0x2458ee6d7c526073,
    0xef84e938209c92f9, 0x9f78a2fe1fbfb44e, 0xa65baf06ffa55782, 0x18c235e6e723390a,
    0xbceca70bd2af7ad5, 0xaf07f38af8c952a7, 0xec10345351a23a3a, 0x066f6f85d6f68a85,
    0x36c37df24976a584, 0x07b52e58595c3934, 0xe9c561b4b192899d, 0x1868e106689f8ea2,
    0xcbe840b7b609ca92, 0x21153350df4075c9, 0x5cb8904ad3e8e9ec, 0x2d5161804f0ec644,
    0xbceca70bd2af7ad5, 0xaf07f38af8c952a7, 0xec10345351a23a3a, 0x066f6f85d6f68a85,
    0x7ecb79ddcf7b0b90, 0xab2dc3f4914612da, 0x55c690f03b9b815a, 0x03510550ddf62923,
    0x909cf2d5f6ee6170, 0x5efe0058403d8a52, 0x5f264a26345ad836, 0x09a2e7bb3b278a1d,
    0xbceca70bd2af7ad5, 0xaf07f38af8c952a7, 0xec10345351a23a3a, 0x066f6f85d6f68a85,
    0xfe149b50b55759c0, 0x8ae94a0e6439be66, 0xb015a7a4233f4e48, 0x13dd4148c491a166,
    0x9f86ddf110295550, 0xd90150eee4ce55dc, 0xc010f42ec3825649, 0x1d2d3b261f5beb3f,
    0xbceca70bd2af7ad5, 0xaf07f38af8c952a7, 0xec10345351a23a3a, 0x066f6f85d6f68a85,
    0xcd8ba68643ff77e5, 0x129190b3855ae4ee, 0x2abcabb47eb5e7a4, 0x221b4477678dad4e,
    0x5f1d40e8e8fcd6e4, 0x830a4998ff45ebc2, 0x5f2043f5f09bedf1, 0x16b76448e9855f16,
    0xbceca70bd2af7ad5, 0xaf07f38af8c952a7, 0xec10345351a23a3a, 0x066f6f85d6f68a85,
    0x2363460e2286c92d, 0x8eae6d3bd53ac860, 0x142cf66104b69e44, 0x2a10b6a2cbae9578,
    0x22e31949b69f2bec, 0x8ccfa871b9c067c5, 0xbe94dfb1d59edfa5, 0x2db84dba4a9d96ce,
    0xbceca70bd2af7ad5, 0xaf07f38af8c952a7, 0xec10345351a23a3a, 0x066f6f85d6f68a85,
    0xd5c149be890e7b60, 0xc273cf20c1f68f03, 0x96ad897ec1a55b4f, 0x1ca9bbf264022382,
    0x367e0d7b5fde30d6, 0x03848ca730ace52f, 0x83d1b9d34ecb00cd, 0x283d37fa5e35d25c,
    0xbceca70bd2af7ad5, 0xaf07f38af8c952a7, 0xec10345351a23a3a, 0x066f6f85d6f68a85,
    0x009ab5f9c791d960, 0x1271e618a174e5d8, 0xea5a063a0ff8ab22, 0x0349057941b141ce,
    0x16c344d40070efc2, 0xe8958eb1e5d65380, 0x8503883d3b9ed50f, 0x1af2e1d98c3c0990,
    0xbceca70bd2af7ad5, 0xaf07f38af8c952a7, 0xec10345351a23a3a, 0x066f6f85d6f68a85,
    0x91f592e6c1da4679, 0x2743d0023bb64022, 0xaa3082e2c0544896, 0x05b7bddacf4522b0,
    0x7e704131c8a35241, 0x7ff8c4a0bc78909c, 0x3cf6a0c21a6445da, 0x1fceeccf337e8a90,
    0xbceca70bd2af7ad5, 0xaf07f38af8c952a7, 0xec10345351a23a3a, 0x066f6f85d6f68a85,
    0xc960473e917a6768, 0xe058dfb6d91c322f, 0xafdd850f31d1920e, 0x2f30a25f4d843e28,
    0x68f3c08f7c07ce87, 0x4574a89e5857751b, 0xbcc5916261702619, 0x1a55160bf49a4936,
    0xbceca70bd2af7ad5, 0xaf07f38af8c952a7, 0xec10345351a23a3a, 0x066f6f85d6f68a85,
    0x03b342b95709041e, 0xf1af24f54761998b, 0xb17573b6ad192b7d, 0x19c66ee887ab4763,
    0x3789c9104f9c781e, 0x06ab3e723266777b, 0xf5f8624b31e11155, 0x1a82828b7f87eba7,
    0xbceca70bd2af7ad5, 0xaf07f38af8c952a7, 0xec10345351a23a3a, 0x066f6f85d6f68a85,
    0xd99debc7faed3385, 0xe84a242d81ae3a81, 0xde9fc4e71b250825, 0x0f506d3199d96083,
    0x4b2c04472aab9f83, 0x172374d99987a8b2, 0x57db9072a97567ff, 0x1cac7482d91faef6,
    0xbceca70bd2af7ad5, 0xaf07f38af8c952a7, 0xec10345351a23a3a, 0x066f6f85d6f68a85,
    0x3216939a72848150, 0xee63d489ee153ecc, 0x3f3192f0e4f52884, 0x249b26b1d4e333b2,
    0x339dca336180dfb1, 0xf145972dcd3a0073, 0x8b97131154407d1b, 0x13d1aeb10b225e2a,
    0xbceca70bd2af7ad5, 0xaf07f38af8c952a7, 0xec10345351a23a3a, 0x066f6f85d6f68a85,
    0x84e4116624d16df3, 0x52720cbc14a70957, 0xb2e0f9400787d1dd, 0x0b90f72b7fcf867e,
    0xc5a6cd70011a8f39, 0x30f0c8d08bc5c365, 0x42abd21359513982, 0x025e346edd8dd551,
    0xbceca70bd2af7ad5, 0xaf07f38af8c952a7, 0xec10345351a23a3a, 0x066f6f85d6f68a85,
    0x587f2630a7b868a2, 0xeb87b4e21b7c424e, 0xc6427b0b4589ef6c, 0x263003b8ed502577,
    0x89c09961ec12ead7, 0x8eb9c12255b910ff, 0x1b6c5b1c92e5a824, 0x2d92ef6b8bdc53dd,
    0xbceca70bd2af7ad5, 0xaf07f38af8c952a7, 0xec10345351a23a3a, 0x066f6f85d6f68a85,
    0x3543870c11316681, 0xb15bcae4181bbb12, 0x8d6d9459a7af04f0, 0x2eb36b6d0bfc593a,
    0x833b2791f59034e0, 0xe37f4a5c2354952c, 0xc1d2f085f3979139, 0x1e48bb591146f461,
    0xbceca70bd2af7ad5, 0xaf07f38af8c952a7, 0xec10345351a23a3a, 0x066f6f85d6f68a85,
    0x51bb001550d8162a, 0xcf8a03f541079c1b, 0x1f0351ee180ca466, 0x0e75991375141887,
    0x327503cf49eca55b, 0x2e859c4661b14b7e, 0xb1f81c72eb0fe8c6, 0x1e45e194b16936c5,
    0xbceca70bd2af7ad5, 0xaf07f38af8c952a7, 0xec10345351a23a3a, 0x066f6f85d6f68a85,
    0x74ce4aefc57fbeb3, 0x69c4f6ac1867ed11, 0x0a51af4529318b62, 0x28c8b58c9e4cfb83,
    0xd1355c2c41b93016, 0x46fc3520889367ee, 0x9e5aafd4cd28c267, 0x255b293fcb1be27d,
    0xbceca70bd2af7ad5, 0xaf07f38af8c952a7, 0xec10345351a23a3a, 0x066f6f85d6f68a85,
    0x5c94da70415544fe, 0xcf40da775a54c35d, 0x7835365bbfa66f6e, 0x1db1367a8e37c559,
    0xa9fed7ca34c5b4ce, 0xdf61286578a69989, 0x5edc683b9db74f08, 0x0cdd97951c2f0b88,
    0xbceca70bd2af7ad5, 0xaf07f38af8c952a7, 0xec10345351a23a3a, 0x066f6f85d6f68a85,
    0x6ab3ba29c57306c9, 0xcca8a912b7ec2857, 0x745c6dd3630ec5a4, 0x0e4d4e42cacb9fa6,
    0xdada0bae3c7b3af6, 0x02d90ef2137d1905, 0xe351641744750d47, 0x2141a925c279e4c4,
    0xbceca70bd2af7ad5, 0xaf07f38af8c952a7, 0xec10345351a23a3a, 0x066f6f85d6f68a85,
    0xdc50cb042a54d167, 0x1119cc50648ce401, 0x9c20597cfbfe4902, 0x08f9f9b3abc79ed8,
    0x952b99353df2b236, 0xdb24c8d4763fa042, 0xcd945c9f0eb7d4ea, 0x06af6c072313d868,
    0xbceca70bd2af7ad5, 0xaf07f38af8c952a7, 0xec10345351a23a3a, 0x066f6f85d6f68a85,
    0xd3eae4ac812b79d1, 0x55cbf9ba301f878e, 0xf376d1fa0c5e6e69, 0x08b43c97bf4a40b4,
    0x2420e2abe16115a7, 0x3985237744652003, 0x34a714e6c5b7a4f8, 0x11e0e607ac6781ca,
    0xbceca70bd2af7ad5, 0xaf07f38af8c952a7, 0xec10345351a23a3a, 0x066f6f85d6f68a85,
    0xeb4de008b2c00da6, 0x3bff751e7b651152, 0xcb7e6b1c30ca428b, 0x2dd7f0e1b303f425,
    0xa4128b349812dda8, 0xee84349aaadb71ea, 0x68b917120f993ae3, 0x107d7f92d1c6a240,
    0xbceca70bd2af7ad5, 0xaf07f38af8c952a7, 0xec10345351a23a3a, 0x066f6f85d6f68a85,
    0xcd820a7861ae1463, 0x23c7e16dd982f66d, 0xdb1166c64ed2fc32, 0x10ab9e8e4ec9ad5f,
    0x4d7de1d209d25cb1, 0x17397713303544a8, 0x4ccc729984468a73, 0x3000d3b3ddb3fb86,
    0xbceca70bd2af7ad5, 0xaf07f38af8c952a7, 0xec10345351a23a3a, 0x066f6f85d6f68a85,
    0xf200fa27a0da6ebd, 0xc4a0c6b2debc2dc8, 0xb3eede8099a1dc45, 0x17610359e624e7fe,
    0x982d24ad2a944eb8, 0x01a8439b65d74df5, 0xac04f6c2708794cd, 0x2affce5b7a7d8c5a,
    0xbceca70bd2af7ad5, 0xaf07f38af8c952a7, 0xec10345351a23a3a, 0x066f6f85d6f68a85,
    0x65e5895ca61c6e09, 0x4408d5fb69e1f649, 0xed32658bd21fc560, 0x2d439fbefe8d2b65,
    0xf68a7935cd193ab9, 0xb3cfc4320de363a3, 0xd72a286d4938540d, 0x0b51cc2a1b1c329f,
    0xbceca70bd2af7ad5, 0xaf07f38af8c952a7, 0xec10345351a23a3a, 0x066f6f85d6f68a85,
    0xd5e2695c43bd3247, 0x3185963272f34c51, 0xbafe78af8c24656a, 0x1468ea2868d31f7e,
    0xed3fe19464879b95, 0xb662a0ec5797fdd4, 0xfa7bd734920e9be7, 0x29553949324f27f4,
    0xbceca70bd2af7ad5, 0xaf07f38af8c952a7, 0xec10345351a23a3a, 0x066f6f85d6f68a85,
    0x18d2cfb428343afa, 0x720047a7f9d1672d, 0x977fd4b86329f6cd, 0x0d9780ee7d395f7c,
    0x8036de18f17cb31d, 0x487f4716831dfff7, 0x3997860e220106c7, 0x210a098afd451fca,
    0xbceca70bd2af7ad5, 0xaf07f38af8c952a7, 0xec10345351a23a3a, 0x066f6f85d6f68a85,
    0x0dda87a0dd90ad81, 0x5a2b2d97c571889a, 0x73d6ef5af88cd5b7, 0x1cedcfe2751b360e,
    0x0de2b047880aee03, 0x40a304f3648672f9, 0xbd45a619e91836c3, 0x22719f26e16723c1,
    0xbceca70bd2af7ad5, 0xaf07f38af8c952a7, 0xec10345351a23a3a, 0x066f6f85d6f68a85,
    0xc1350597be000be2, 0xef6ad66346e04613, 0x9f670f19c7490f8e, 0x0ae0cec959c4c785,
    0x3b1c515ec64b0727, 0xa16cd03edda2e039, 0xb7316c238bc38f20, 0x177560de731482bd,
    0xbceca70bd2af7ad5, 0xaf07f38af8c952a7, 0xec10345351a23a3a, 0x066f6f85d6f68a85,
    0x75aef0b98e816a40, 0x14edf0aad6f7a7f1, 0xb4850a4f458add55, 0x1f19a267da0b8fc2,
    0xd3770e7724c09f31, 0x6f398051ae1870af, 0xb54509031ea2888f, 0x1da77cdeff9cf822,
    0xbceca70bd2af7ad5, 0xaf07f38af8c952a7, 0xec10345351a23a3a, 0x066f6f85d6f68a85,
    0x3ecaa764f48f17a8, 0x7ba338cfd43ec9b3, 0x665a869970255c26, 0x02d1e17aaaa96743,
    0x6c14670024329d12, 0xae5c86877a8f8226, 0xc980316ea26ef66f, 0x0c376a8ff1da39de,
    0xbceca70bd2af7ad5, 0xaf07f38af8c952a7, 0xec10345351a23a3a, 0x066f6f85d6f68a85,
    0x2495a69c56680a79, 0xa783db5cad8e3f42, 0x7b39560adeb3c7a9, 0x00bb856048ef43a7,
    0xb20061656006c19a, 0x532c88d29ad652cb, 0xb2c99b6403f3ac4a, 0x1d81808a3c73be1b,
    0xbceca70bd2af7ad5, 0xaf07f38af8c952a7, 0xec10345351a23a3a, 0x066f6f85d6f68a85,
    0xafd3223c354add62, 0x81e445d4409a0e2a, 0xd24cc5900df8ff0b, 0x15e52ae83a9db363,
    0x751abb8885203ad4, 0x159be533354ffb88, 0x37f7d88ef66f765a, 0x2aa2fc03cb5f72e2,
    0xbceca70bd2af7ad5, 0xaf07f38af8c952a7, 0xec10345351a23a3a, 0x066f6f85d6f68a85,
    0x7c7789b03ac932c0, 0xbc35f41992b1062a, 0xdace5c69546d0890, 0x10afedad881a1da7,
    0x75fe2d8c882c858a, 0xad22a6e7d4f6bde8, 0x4042446e947dfedf, 0x1d18193701979ad2,
    0xbceca70bd2af7ad5, 0xaf07f38af8c952a7, 0xec10345351a23a3a, 0x066f6f85d6f68a85,
    0xc450dd96d7b24f36, 0x001cd417061e826b, 0x770beb0300a09fc7, 0x02f0b8457690e4d9,
    0x8da18ff9d981effb, 0x53b8b9848be3062f, 0x6870e0b02b9776bc, 0x0dc31897d61d70e1,
    0xbceca70bd2af7ad5, 0xaf07f38af8c952a7, 0xec10345351a23a3a, 0x066f6f85d6f68a85,
    0x9ebb0d5d73663525, 0x69c141200fd46bdc, 0xdad3a14a7603e3cb, 0x0203c94bb7694f9c,
    0x26fe8b09f1afc81f, 0x10eb985dcc81af99, 0xcdaa3c84372933e6, 0x2b778a231f21f8a6,
    0xbceca70bd2af7ad5, 0xaf07f38af8c952a7, 0xec10345351a23a3a, 0x066f6f85d6f68a85,
    0xd98b2138c8c9d5d2, 0xfaa7e359db111e84, 0x6a9d5272a2466a28, 0x2c8a0376c766055e,
    0x9138fe44aaa8c778, 0xce4ad01e095f94f4, 0xe16ba590ae0cd49f, 0x2ffda33f5b85a4fd,
    0xbceca70bd2af7ad5, 0xaf07f38af8c952a7, 0xec10345351a23a3a, 0x066f6f85d6f68a85,
    0x15789bbe15444844, 0x6cb27f44067fb58d, 0x2a7f4d40614f72fc, 0x0318af53cfd822ec,
    0x3ba6f884bd7206cc, 0xce9f8910b6fa8a4a, 0x4e7436a4ecef2f91, 0x0d24997465c5b23d,
    0xbceca70bd2af7ad5, 0xaf07f38af8c952a7, 0xec10345351a23a3a, 0x066f6f85d6f68a85,
    0xf9a33577a3d2a658, 0x6becfa66b3c5e47f, 0x5d648e42880b396a, 0x01ea39e4d9edebf6,
    0x92fda1ee8b50f2ff, 0x7735cf5ebdbdd4a0, 0xd9ede9bdcf11268f, 0x15e4e016c94a026f,
    0xbceca70bd2af7ad5, 0xaf07f38af8c952a7, 0xec10345351a23a3a, 0x066f6f85d6f68a85,
    0x6e757b00392eac9d, 0xc4dbd04973fb3ef7, 0x2a82fd43fe4bb145, 0x2ef185c4b1cdb707,
    0xb07ab81c71435902, 0x4f1d7d1e3bb0204c, 0x7d1dd3d92255beb5, 0x15cedc8a4ef6f701,
    0xbceca70bd2af7ad5, 0xaf07f38af8c952a7, 0xec10345351a23a3a, 0x066f6f85d6f68a85,
    0xeaf5ce0645e5749a, 0x8219565733684494, 0xc117b111270f1c2c, 0x0dbf148ee8983db0,
];

/// Sparse partial-round coefficients for state width 2, elements 128 to 167.
pub const T2_S_1: [u64; 160] = [
    0x08805ea2b4c48aab, 0xed380b99ffc42dfb, 0xb319b1efe6b3eabc, 0x2842f44ddc05dbd5,
    0xbceca70bd2af7ad5, 0xaf07f38af8c952a7, 0xec10345351a23a3a, 0x066f6f85d6f68a85,
    0xb62e1ebf3298af2c, 0x8426fdf5f1e4fb8b, 0x1b7efb2e124e7502, 0x1aa07e7ffa4a036f,
    0x656561eb96d25d32, 0x09f017fd43e92296, 0xa8ba97ea683b605d, 0x1e5a2abded8c7022,
    0xbceca70bd2af7ad5, 0xaf07f38af8c952a7, 0xec10345351a23a3a, 0x066f6f85d6f68a85,
    0x8a2a0cfbc028d2af, 0xf11e8cc1dea223e9, 0xbc3d36b0cb73de6d, 0x0acf3ab02c018573,
    0x6105f7ff1beabb29, 0x4f949202122673b0, 0x5fcc6df1f02dc416, 0x1bab48ad2c31dcec,
    0xbceca70bd2af7ad5, 0xaf07f38af8c952a7, 0xec10345351a23a3a, 0x066f6f85d6f68a85,
    0xd11a38cce6a7f31c, 0x04b589a4a8b358de, 0xdc06a2a4c6967dc0, 0x01a36af3ad1c61cd,
    0xd3cb69a584e0d8d2, 0xa6788cb5b4805c9c, 0x536fa643a66e1d2f, 0x125e0e822514cf49,
    0xbceca70bd2af7ad5, 0xaf07f38af8c952a7, 0xec10345351a23a3a, 0x066f6f85d6f68a85,
    0xc93d7d0f17bfcbd3, 0xb142434a14d5d4f8, 0x71d63940d8d689f9, 0x085be8486ecb3dbf,
    0x58f11e0d506b17e3, 0x02d5db9822ab63b0, 0x2feead8bc71ae9c0, 0x275651360d88063b,
    0xbceca70bd2af7ad5, 0xaf07f38af8c952a7, 0xec10345351a23a3a, 0x066f6f85d6f68a85,
    0xf7815b247b228a6f, 0x89db1e1f9f620c18, 0xecc21446ed94c802, 0x0f7eb245596d9ac5,
    0xf0fc2fb103ad549c, 0xd887c8bb88091513, 0xbc67f7677ab459c9, 0x221862a04a00f406,
    0xbceca70bd2af7ad5, 0xaf07f38af8c952a7, 0xec10345351a23a3a, 0x066f6f85d6f68a85,
    0x137dbd47fc26e3a2, 0x5cda7eb1d4ab7e70, 0xcf0a588a5fadf870, 0x1bd575603b7085af,
    0x4158a6f62db446f1, 0x31079de61e67184c, 0x2db8575d986a82e9, 0x146d1d176245ff77,
    0xbceca70bd2af7ad5, 0xaf07f38af8c952a7, 0xec10345351a23a3a, 0x066f6f85d6f68a85,
    0x2ef4fa728da4cd3a, 0x8d392d59cb12a42e, 0x749393664f024d57, 0x02202ec1e7fd85c4,
    0xa7309c6970371421, 0x46b5dfdb9dd5ba26, 0xff0ab3e12a1203c8, 0x01c0e72693a0e12b,
    0xbceca70bd2af7ad5, 0xaf07f38af8c952a7, 0xec10345351a23a3a, 0x066f6f85d6f68a85,
    0xc07948de056071e0, 0x14a585dbf5ad9758, 0xcbb0bd83378163ab, 0x2b3d8733bb4872b6,
    0x8de0fdc87a29640e, 0x4fa34643a429cfdd, 0x575b9d3dcee6332f, 0x185d12aa30aed1a0,
    0xbceca70bd2af7ad5, 0xaf07f38af8c952a7, 0xec10345351a23a3a, 0x066f6f85d6f68a85,
    0x3593a9a77675f641, 0xe1c60ec6dd944dd3, 0xe29bd3dfc35dfcc8, 0x1b394227301f28be,
    0x41eb3a325f2265e7, 0xf48854b4a496537d, 0xf6c08a3deb114a4f, 0x15b1cfd522bdc418,
    0xbceca70bd2af7ad5, 0xaf07f38af8c952a7, 0xec10345351a23a3a, 0x066f6f85d6f68a85,
    0xdd5a0713ff4cbbb8, 0x619800d2da15da01, 0x30a9db0a16b59abc, 0x0bca3aef46833e8a,
    0xe7af212500f5e6ca, 0x853150015e2e6b4c, 0xa2c2f8c7cf4adff0, 0x0529062596e51b8c,
    0xbceca70bd2af7ad5, 0xaf07f38af8c952a7, 0xec10345351a23a3a, 0x066f6f85d6f68a85,
    0x6105dcfc31fdef60, 0xd150d022be2982eb, 0xa7366a45da1e847c, 0x02fda517f4261325,
    0x154a1539d12dd1cf, 0x64db993e8d8629b7, 0x5b7ff9d2fbab64d2, 0x1fec5a09cea4d25e,
    0xbceca70bd2af7ad5, 0xaf07f38af8c952a7, 0xec10345351a23a3a, 0x066f6f85d6f68a85,
    0x3b74d1a9a42eb1bb, 0x831717fa3f8e0194, 0xe5605094751af17b, 0x2d87776eef5dfabb,
    0x8f68c39f9f01ff19, 0x67afa4188c468495, 0x5aebd0afb9be5849, 0x0d257a437910f399,
    0xbceca70bd2af7ad5, 0xaf07f38af8c952a7, 0xec10345351a23a3a, 0x066f6f85d6f68a85,
    0x66f8d7289716aee4, 0xe1c32fc24a9f0b60, 0xbcbac004f90799e6, 0x098f0aa06092ed2c,
    0xf573f431221f8ff9, 0xb6c09d557013fff1, 0x2bf67a4493cc262f, 0x0cc57cdbb08507d6,
];

/// The mixing matrix for state width 2.
pub const T2_M: [u64; 16] = [
    0xbceca70bd2af7ad5, 0xaf07f38af8c952a7, 0xec10345351a23a3a, 0x066f6f85d6f68a85,
    0xf573f431221f8ff9, 0xb6c09d557013fff1, 0x2bf67a4493cc262f, 0x0cc57cdbb08507d6,
    0x05462b9f8125b1e8, 0x20a7c02bbd8bea73, 0x7782e1509b1d0fdb, 0x2b9d4b4110c9ae99,
    0x21bcd147943203c8, 0xade857e86eb5c3a1, 0xa31a6ed69724e1ad, 0x1274e649a32ed355,
];

/// The matrix applied before the partial rounds, for state width 2.
pub const T2_P: [u64; 16] = [
    0xbceca70bd2af7ad5, 0xaf07f38af8c952a7, 0xec10345351a23a3a, 0x066f6f85d6f68a85,
    0xd32cc760be574bd6, 0xe3fecee512cbb163, 0x94d269ae59f17efe, 0x20e3e914631964e3,
    0x05462b9f8125b1e8, 0x20a7c02bbd8bea73, 0x7782e1509b1d0fdb, 0x2b9d4b4110c9ae99,
    0x7220a9b197ee3f46, 0x3690d329ae737c8c, 0x563394632833d863, 0x10a44ed9dd9ce568,
];

/// Round constants for state width 3.
pub const T3_C: [u64; 324] = [
    0x8d21d47304cd8e6e, 0x14c4993c11bb2993, 0xd05986d656f40c21, 0x0ee9a592ba9a9518,
    0x5696fff40956e864, 0x887b08d4d00868df, 0x5986587169fc1bcd, 0x00f1445235f2148c,
    0xe879f3890ecf73f5, 0x30c728730b7ab36c, 0x1f29a058d0fa80b9, 0x08dff3487e8ac99e,
    0xa8ef88ceea2b0197, 0xa59565eedae2d00c, 0xe1f9075cb7c490ef, 0x084d520e4e5bb469,
    0xeb3e767ae0fd811e, 0x4b3e667a2f9f15d8, 0x33da56722416fd73, 0x2d15d982d99577fa,
    0x0efbe65632c41b6d, 0x91601f6536a5996d, 0xcf1578a43cf0364e, 0x0ed2538844aba161,
    0xcc3e3af02955e60a, 0x804c877d829b735d, 0x86e739e6363c71cf, 0x2600c27d879fbca1,
    0x70058558282bf2c5, 0xcb99a5517440dfd9, 0x475bd15396430e7c, 0x28f8bd44a583cbaa,
    0x2d030c55df153221, 0x1ed314d7f697a557, 0x8781aad012e7eaef, 0x09cd7d4c380dc548,
    0x51e2bee7d0f855f5, 0x4b6713febe822349, 0x06120ecaace460d2, 0x11bb6ee1291aabb2,
    0x349cadeecfceb230, 0x6f171580f5b8fd05, 0x3310f3c0e3fae1d0, 0x2d74e8fa0637d985,
    0xe4b4d316ed889033, 0xb1a09559a511a18b, 0xac9bef31bacba338, 0x2735e4ec9d39bdff,
    0xf617e24213132dfd, 0x1106c33f826e08dc, 0xa5da6312faa78e97, 0x0f03c1e9e0895db1,
    0x848a7e9ead6778c4, 0x8741090b8f777811, 0xaf92920205b719c1, 0x17094cd297bf827c,
    0x1ba7d4b4d559e2b8, 0x48df90d4178042c8, 0x1fc2b32194657983, 0x0db8f419c21f9246,
    0x4a22709ceceeece2, 0x66809db60b9ca172, 0x17427ed5933fcfbc, 0x243443613f64ffa4,
    0x04bb191fada75411, 0xecbbae6deecd03aa, 0xcd256c25c07d3dd8, 0x22af49fbfd5d7e9f,
    0xf7f7c097c19420e0, 0x4677f797b4327323, 0x0c78a20d93c7230c, 0x14fbd37fa8ad6e4e,
    0x22faa7e18b5ae625, 0x89420c4eb3f3e1ea, 0xd4b2c9fbc6e4ef41, 0x15a9298bbb882534,
    0x4c2f1d90562232bc, 0x83eef92e854e7543, 0x221323ebceb2f2ac, 0x2f7de75f23ddaaa5,
    0x23584f7479cd5c27, 0xca216f2ff9e9b2e6, 0x78a315e84c4ae5ae, 0x036a4432a868283b,
    0xae1c5682c797de5c, 0xe39f3c962f11e860, 0xe277218ab14a11e5, 0x2180d7786a8cf810,
    0x53572377eefff8e4, 0x3778990484cc03ce, 0xd0cb55be640d73ee, 0x0a268ef870736eeb,
    0x9df9bae16809a5b2, 0x29e982e8c90e0906, 0x4f2999031f159948, 0x1eefefe11c0be466,
    0x6571a3c3cf244c52, 0x4b8fb93d9a112994, 0x9ca596e8cb77fe3a, 0x27e87f033bd1e0a8,
    0xd21451809178ee39, 0x9979c4f9d2a3e184, 0x3321f57d6c543588, 0x01498a3e6599fe24,
    0x8dea1bbebde507aa, 0x4d5d6bcc235bef10, 0xe9dd4d7ce33707f7, 0x27c0a41f4cb9fe67,
    0x6a7c91fe1dae280f, 0xf4f4ae825d5004c1, 0x6637238b120fc770, 0x1f75230908b141b4,
    0xb1f0a085bee21656, 0x7b97b3a089808d4e, 0x7bba831b15fffd2d, 0x25f99a9198e92316,
    0x622974228ba900c6, 0x3d3d56ec8ed14c67, 0xd0f6acdc2bb52659, 0x101bc318e9ea5920,
    0xc1ccc43207a83c76, 0xebc0c852a3cf091e, 0x97c1334ecb019754, 0x1a175607067d5173,
    0xc4d89770155df37b, 0x6b2eb380ba4af5c1, 0xdeb245f3e8c381ee, 0x0f02f0e6d25f9ea3,
    0xf358b3163b393bc9, 0x92565de456ae789f, 0x08d8a6677203ec96, 0x151d757acc8237af,
    0xa79d13a3a624fad4, 0x084980ee5b757890, 0x49e0a1fe0068dd20, 0x256cd9577cea1430,
    0x97b8ae86e1937c61, 0x476682c3fbdd1954, 0x8833b13da50e0884, 0x0513abaff6195ea4,
    0x86d19dbac4e4a655, 0x39246e84e4ac4483, 0x6f610251ee6e2e80, 0x1d9570dc70a205f3,
    0x044eec50b29fc9d4, 0xeffb012dd784cf5e, 0xd5d7f1bf8aaa6f56, 0x18f1a5194755b8c5,
    0xd88163238eebbca8, 0xfa4bb0af966ef420, 0x866512c091e4a4f2, 0x266b53b615ef73ac,
    0x3f4fd6e8344ae0f7, 0x68304dfeb8c89a1a, 0xa42b8de27644c022, 0x2d63234c9207438a,
    0x0021daee6f55c693, 0xfbb976205ef8df7e, 0x7b3adde219a6f0b5, 0x2ab30fbe51ee49bc,
    0x068d9207fa6a45c9, 0x1dc42abcd528b270, 0xdcb9cce48969d4df, 0x1aee6d4b3ebe9366,
    0xa211d123f6095219, 0x11f57646c60bb34a, 0x5a79452e5864ae1d, 0x1891aeab71e34b89,
    0xa7caab01c818aa4b, 0x18e16b2657771bd3, 0x6437e94b4101c691, 0x24492b5f95c0b087,
    0xb2fddf71bcfde68f, 0x964628213d66c10a, 0x1b3b2c8663a0d642, 0x01752161b3350f7e,
    0x68cfb8f90a00f3a7, 0x2f445b8d148de543, 0x7cfb84938e614c6c, 0x0ab676935722e2f6,
    0xfe0da1f7aa348189, 0x683fc2e6e227e3d4, 0x45bc730117ed9ae5, 0x0b0f72472b9a2f5f,
    0x13a78a513edcd369, 0xcaf2b2152c3ae6df, 0x1c201d1a52fc4f8a, 0x16aa6f9273acd563,
    0xa45c08d52435cd60, 0xbf62d9b155d23281, 0x13c324c1d8716eb0, 0x2f60b987e63614eb,
    0x9db76b7cc1b21212, 0xf1cb89b042f508fd, 0x7606bb7884554e9d, 0x18d24ae01dde92fd,
    0x0715d4724cffa586, 0x18c3185fdf159396, 0x8d776373130df79d, 0x04fc3bf76fe31e2f,
    0xb5d26270468dbf82, 0x6dee9e06b21260c6, 0xcfdd670b41732bdf, 0x0d18f6b53fc69546,
    0x6fa5d7045bd10e24, 0x3f1f70b4cdb04503, 0xcec11fbafa17c522, 0x00ba4231a918f13a,
    0xbedd0dd86120b4c8, 0x33c826da0635ff1e, 0x100985301663e7ec, 0x07b458b2e00cd7c6,
    0xec39e9fd7baa5799, 0x6bba24e2ed40b16c, 0x6058e76f15a0c828, 0x1c35c2d96db90f4f,
    0x5e0dde688e292050, 0x0a4f589abbef9694, 0x766568f03dd1ecdb, 0x1d12bea3d8c32a5d,
    0x13db405a61300286, 0x9c995bb62fdea943, 0x0525f9a73526e988, 0x0d953e2002200327,
    0x760e33506d2671e1, 0xf06ff0b610b4040a, 0x86a40bec4c875047, 0x29f053ec388795d7,
    0x4b9679caaae44fc2, 0xe264d5f446e0c3f6, 0x4a4952a98463bc12, 0x04188e33735f46b1,
    0xbf1735cdbe96f68f, 0xe996a408b7e97eb3, 0xa84f1d0529431bb9, 0x149ec28846d4f438,
    0x148cce1c5fdddee8, 0x7aeafd98e651922d, 0xca24b5f63630bad4, 0x0de20fae0af5188b,
    0xf449fba6984c6709, 0x7d836c234b8660ed, 0x3ea94350e722ad2f, 0x12d650e8f790b125,
    0x8340dfc4babb8f6c, 0xfdadbc1a8abe28d7, 0x0ea96717ba7446aa, 0x22ab53aa39f34ad3,
    0x04a129db9149166c, 0xe0de109871dd7769, 0x450dabea7907bc3d, 0x26503e8d4849bdf5,
    0xc8064035b0d33850, 0xec34b23d897e7fc4, 0x00f5454f5003c5c8, 0x1d5e7a0e2965dffa,
    0x9cb3c7bbd07104cb, 0xbc9a6aefa544615b, 0x12d96b7ec48448c6, 0x0ee3d8daa098bee0,
    0x1dc232b5f98ead00, 0xfa9ef7a7175703d9, 0x55d30754cd4d9056, 0x1bf282082a049799,
    0xa0272173ee9ad461, 0x971645f16b693733, 0xe3e951bc316bee49, 0x07ae1344abfc6c2c,
    0x5c8e89762ee80488, 0xdc98a36b7a47d97a, 0xec21b131d511d7db, 0x217e3a247827c376,
    0x7509b616addc30ee, 0xabe1e50efc289411, 0xa003d438e2fbe28b, 0x215ffe584b0eb067,
    0x12a92d1d3ce3ec20, 0xbec19b84e33da574, 0x92dcedc597c4ca0f, 0x1e770fc8ecbfdc86,
    0xe50e828f69ff6d1f, 0x42914fc19338b3c0, 0x9f1e3a8a6d66a057, 0x2f6243cda919bf4c,
    0xd3c03ff87a11b693, 0x3a195d0e9cc89345, 0x9595d0046f44ab30, 0x246efddc3117ecd3,
    0xe602bc62cec6adf1, 0x0168b1c89a918dfb, 0xd4fe006f139cbc4e, 0x0053e8d9b3ea5b8e,
    0xaec04c1abe59427b, 0xeb4f261beefff135, 0x7d910f6a710d38b7, 0x1b894a2f45cb9664,
    0x42553d54ec242cc0, 0xdc077abf88651f5a, 0x8212652479107d5f, 0x0aeb1554e266693d,
    0x11faf9da8d9ca28e, 0x04ba7d71bd4b7d0e, 0xe6888680d1781c7f, 0x16a735f6f7209d24,
    0x4ff549dcf073d41b, 0x60e4bcbb615b1937, 0xd7c13b4df0543cd2, 0x0487b8b7fab5fc8f,
    0x77fdf51c92388793, 0xcfb5d512068c3ad6, 0x124bea26b0772493, 0x1e75b9d2c2006307,
    0x961dcb02da3b388f, 0xae46fa1e239d1c6c, 0x253b46d5ff77d272, 0x05120e3d0e28003c,
    0xf890f5fd55d78372, 0xc0900a053b171823, 0xb822e8763240119a, 0x0da5feb534576492,
    0x40cc8f78b7bd9abe, 0x8c2666a6379d9d2c, 0x22acc1a1f5f3bb6d, 0x2e211b39a023031a,
];

/// Sparse partial-round coefficients for state width 3, elements 0 to 127.
pub const T3_S_0: [u64; 512] = [
    0xfedb68592ba8118b, 0x94be7c11ad24378b, 0xb2b70caf5c36a7b1, 0x109b7f411ba0e4c9,
    0x3ab718e707576b31, 0x1a89752f427f4f06, 0x6ee25a9b8768b323, 0x03f0815ab463f1b7,
    0xe008859f1dbfb317, 0x57012a3d3b1d34c8, 0x54c7e33029b36173, 0x15648bf46f60d829,
    0xa0cfefbf7fbfba85, 0xd05ea850cf61f1da, 0x18ca7f2eafdd7564, 0x127e00c2253de078,
    0xf7d48051630747bd, 0xd3ce470a8cbbb878, 0x9382fc0b1d265cb4, 0x066365afd18a41ef,
    0xfedb68592ba8118b, 0x94be7c11ad24378b, 0xb2b70caf5c36a7b1, 0x109b7f411ba0e4c9,
    0xb099715c4404aae7, 0xf4fa24c84e57dcf2, 0xdc69a96f7fe7e086, 0x219d14f823513140,
    0xaefa9ac2302132d5, 0xf14f4d33696d37eb, 0x4a6a63a8050d91f9, 0x03a30bfbbf2cb86d,
    0x85104b0b41935bcc, 0xdad5a84d74b06e33, 0xb0270fb7d5c9f94e, 0x2121bbcdeaa33a35,
    0xd053ef8b3d10e70e, 0xcd5580c2e338a389, 0xcfbb82c289e579b7, 0x196b544fbeb0a792,
    0xfedb68592ba8118b, 0x94be7c11ad24378b, 0xb2b70caf5c36a7b1, 0x109b7f411ba0e4c9,
    0x7d907ea0202f560f, 0x6973ec73edb4bd4e, 0x89c1db270ef479c2, 0x2809c3a1547c0cee,
    0xd40d4e96dfc5c8f1, 0x2a4c67175b31f4b5, 0xca157585a02b8b34, 0x11c34446b083ef92,
    0x6d9d8026e2e39925, 0xf6242ad7709d90b8, 0x367c030e3289cbe0, 0x253ea0b33a8bf3b2,
    0x38c16df85637bd5f, 0x4f5a19c006d10304, 0x90c89d4007ad29fc, 0x30467dc1930f6afe,
    0xfedb68592ba8118b, 0x94be7c11ad24378b, 0xb2b70caf5c36a7b1, 0x109b7f411ba0e4c9,
    0x13c8ebfbbba54f44, 0xaa6a536458b38bbe, 0x7e20e6f5a3a88af7, 0x2f9d4b55495f7e37,
    0x4cfd03ff0feac4b8, 0xd8ee2353be18aad5, 0xf11d36d499e7e093, 0x1d9e9d5c736e3151,
    0x5f343de301e54841, 0xd1bfedb87e097c31, 0xebf622f7823a3de7, 0x124b617b43e598f9,
    0x89cc5748ffe199b2, 0xa5f9c5b19cae08d7, 0x4055cf073bedc945, 0x198e7cfc66ae4577,
    0xfedb68592ba8118b, 0x94be7c11ad24378b, 0xb2b70caf5c36a7b1, 0x109b7f411ba0e4c9,
    0x5bb6c27ed977fe24, 0xeb945ba57443099c, 0xfd124ab3aad57789, 0x2eac25b3498dfadf,
    0x0b3c6ab5f4f90126, 0x4e8af1d4454ed355, 0x1b378305c1bb9c90, 0x1ee02c175cdfe187,
    0x9fa98301d0f679d5, 0xf6fbb1d9745c4860, 0xb29ea8f9d2dfa47f, 0x0616f8c34c607266,
    0xa43a42832803370b, 0x853e51ed385e4883, 0x58b9f19cbbdb972a, 0x181d68b0a1885049,
    0xfedb68592ba8118b, 0x94be7c11ad24378b, 0xb2b70caf5c36a7b1, 0x109b7f411ba0e4c9,
    0x059e9327f5ba7004, 0x81d1ce2f24cbabf6, 0x5d6b7f5b015d5791, 0x2d5397ce863464a2,
    0x1724d8dbd4bc2618, 0x7713e7d32da2b659, 0xe8912940cc0b8027, 0x15bf817491b94d71,
    0x94a3827d29c08714, 0xc8cc687740bc9109, 0xb76feab28b69485a, 0x2a7cbd11460b177a,
    0x4c237b290de9d502, 0x63cb462da80a8561, 0xab56e447fae5cc17, 0x0f7cd5ffa4661730,
    0xfedb68592ba8118b, 0x94be7c11ad24378b, 0xb2b70caf5c36a7b1, 0x109b7f411ba0e4c9,
    0x644ce04531008100, 0xf768137d86d305be, 0xeb13273508eb6575, 0x0e0766004b4c4176,
    0x4e1f763000b9924c, 0xb54ee3c1afac0010, 0xf6d148be6b9c8bb7, 0x0625fa7145813481,
    0xb65136318ce2c6a5, 0xb19cd9c7b184f515, 0x16ee0f5461aad2e0, 0x007c5472508b4599,
    0x4685879cb7a89fcb, 0x31d53073951d43c5, 0x93ac77ab3fb75572, 0x0567375470d189b6,
    0xfedb68592ba8118b, 0x94be7c11ad24378b, 0xb2b70caf5c36a7b1, 0x109b7f411ba0e4c9,
    0x601174ba5c7b8bcc, 0x8ad21f51ea4bfc71, 0x5165f56c063e4210, 0x1d0406bcbec83f8d,
    0x7c73b46c63272cb7, 0x375f06342f8696ee, 0x280a8aa1f86405f3, 0x0c02b18eef22332d,
    0xad053a55ad6da4cf, 0x823509ad4fd1b15a, 0xeaa7add2f801a664, 0x17c1fc174cd9a6eb,
    0x8a08638e9584b32d, 0xaaa6caf433f7ed25, 0xab7ebbc86709a021, 0x05f843c23024eb1d,
    0xfedb68592ba8118b, 0x94be7c11ad24378b, 0xb2b70caf5c36a7b1, 0x109b7f411ba0e4c9,
    0x589f792f0ad8cb37, 0x27b45ccd90a55c87, 0x5cc51c53165e0027, 0x22df2420697ca28b,
    0x417588efc4d7302a, 0x9fd3af804b76be86, 0x73400aaedf0f4800, 0x2f1438303a7b49d4,
    0x6155c5463093b23b, 0xbaa7f4dccd35d5ca, 0xc6b2b7b4fbf9a24b, 0x2323d5fcf2da8965,
    0x4e37700073d4d26e, 0xf40f7b961e9c54f9, 0xe83b753a5e7336b9, 0x026c85b9dfbbe48f,
    0xfedb68592ba8118b, 0x94be7c11ad24378b, 0xb2b70caf5c36a7b1, 0x109b7f411ba0e4c9,
    0x28e41d65384c318f, 0x70b271df4c209795, 0xfeb38b5ab4e335f0, 0x031511000251ec86,
    0x0ff5df9a26c03af1, 0xe27cd16b941e34a6, 0xb42fa69e5d90a0c0, 0x18e588324a9bbaac,
    0xd99f03c10ea1f95f, 0x98357d6ad9bef2e7, 0x070635775c8d3c94, 0x2642b5d8e16b953b,
    0x21f909aef836c133, 0x31189b0b48335c42, 0xe84ff60db906a0f0, 0x21fc313ba11c60e8,
    0xfedb68592ba8118b, 0x94be7c11ad24378b, 0xb2b70caf5c36a7b1, 0x109b7f411ba0e4c9,
    0xf2f4d93d06dae151, 0x311298bcbac6e4e9, 0x890b698cc6ab89f7, 0x2d3562e3d4b42bc6,
    0x189d886dfd2e0808, 0x7934a5f67616f01c, 0x2e3e0b6ff7e5c7c7, 0x0a74ef541d360e84,
    0x67c2c9b1b02caf8a, 0x43f434087d9e7549, 0xc3983d6e3b433afa, 0x140564b53e0a812a,
    0x3adb6f2db6bba9d0, 0x59c436c8e83fa699, 0x18b400181e71ab97, 0x14709e32d98ae4cd,
    0xfedb68592ba8118b, 0x94be7c11ad24378b, 0xb2b70caf5c36a7b1, 0x109b7f411ba0e4c9,
    0x4a619a4b52bdc010, 0x2372db4f2dba651f, 0x423f179e1266dd39, 0x0734b2366c59e394,
    0xd02d7e71088fd2d4, 0xe963ed92913642c7, 0x5ad3e3c5fb6629ab, 0x11fb2d705c94b08d,
    0x34e4cc3618059484, 0xef6eb7f78fd84be8, 0x5d715eba19371050, 0x27d03abf5c1f290e,
    0xbb9b441ac1395861, 0xbe817f212a39c6a8, 0x7fb3353cfc2cd63e, 0x13ed9e9e6b452df2,
    0xfedb68592ba8118b, 0x94be7c11ad24378b, 0xb2b70caf5c36a7b1, 0x109b7f411ba0e4c9,
    0x7c5b79ab99cbd23c, 0x795de4452604263a, 0x246cdaaa04a12e88, 0x1319c51cf37aaa10,
    0x715b6cea019ac3f2, 0x26a4cf444eebbd0e, 0x7f9dad839f2c8cb5, 0x000bca25588d187b,
    0xc01be23cf51d593f, 0x1a069b493f02f7a3, 0x181226874b923cd0, 0x1d837ea0341c5964,
    0x012090db7de4e7f9, 0x4149e2a6dbd25f24, 0x42c427ce4c5c8377, 0x1b41ce9ed3634cbd,
    0xfedb68592ba8118b, 0x94be7c11ad24378b, 0xb2b70caf5c36a7b1, 0x109b7f411ba0e4c9,
    0x7b56bd6673f1ce1f, 0xbca74b98b78a127c, 0xddc790ecc4e946f4, 0x0671f0e3b674ae7c,
    0x071d0449a5426e4e, 0xefeb682c1ac14143, 0x72e40cd30615f55f, 0x019fc073797a39b2,
    0x11c5096619e9fd13, 0xfa4209480bf5d973, 0xfd1f7c5c6d5a7c70, 0x017bee47d262a497,
    0x00cc8527274471e3, 0x4c7944721cc937ba, 0x80763539cff2978a, 0x2073cff92d3141b4,
    0xfedb68592ba8118b, 0x94be7c11ad24378b, 0xb2b70caf5c36a7b1, 0x109b7f411ba0e4c9,
    0xc7aa46b1fa663baa, 0xf9c58d152e730fe2, 0x7f43182a55a91d48, 0x03bd7b3e2c188587,
    0xfed9ffbbbad9b6b7, 0x0ceb100719a14c8d, 0xff128edfb9bbf5fa, 0x226ebc9a538b5bba,
    0xc6e394e8a5d3b21a, 0x34a49572af1d830d, 0x0373a06e1552c0e6, 0x0d395f0b08b9fede,
    0x41f77d5331f99ffa, 0x5284bd3bcf1e0f2f, 0x30d49b68e19e31ba, 0x28242439b524540a,
    0xfedb68592ba8118b, 0x94be7c11ad24378b, 0xb2b70caf5c36a7b1, 0x109b7f411ba0e4c9,
    0x754b48c6154d4df6, 0x0b457e129e91f929, 0x2d2de034801ab85e, 0x0370d6fa19eaac14,
    0x0a2b2e0bcbde1659, 0xa37939bc0c753feb, 0x90762abf269579ea, 0x09a16f573b3280f3,
    0x8d99981368231d97, 0x3c0021a690b71b26, 0x496ac443f98127ee, 0x2228e360fb5b162b,
    0xb97675f3c567f944, 0x9431e34d8032b6a1, 0x9fabf83991476d20, 0x07e42c2ca633d2c4,
    0xfedb68592ba8118b, 0x94be7c11ad24378b, 0xb2b70caf5c36a7b1, 0x109b7f411ba0e4c9,
    0xa50fe96097724a9f, 0xed35fda1d8e9d753, 0xc3cab85a6215a32e, 0x2ce12d7269663770,
    0xba0b2231815b15de, 0x084bc4daf70973a7, 0x09eeb9b1b45a0125, 0x03d7427704c61e20,
    0x2d86921e553e69c6, 0xa096fb4ddc462673, 0x1c1267fcf4b4b33c, 0x10f8abf076418586,
    0x5c95644c7c5914cc, 0x51a1a620aaf6568a, 0x025d7cb456e3aeb2, 0x17ccaf6f26f7267a,
    0xfedb68592ba8118b, 0x94be7c11ad24378b, 0xb2b70caf5c36a7b1, 0x109b7f411ba0e4c9,
    0x59de6df28cea4d51, 0xd0e3651a6e55754d, 0x1385c3ce00ca820a, 0x063bb306b9631005,
    0x920cf993a4169974, 0x03242e0b65e608bc, 0xf2c304a18095ab74, 0x1f761ee5553c5e86,
    0xcd6bdfc09de4e8f2, 0x64bcde8761b45717, 0xa23c0e666859ba65, 0x0dc5f00bbfd7c1d9,
    0x91089760bfc40ef2, 0xb44cf790a230abc3, 0xdf07c3536381c13e, 0x06de511520e277b7,
    0xfedb68592ba8118b, 0x94be7c11ad24378b, 0xb2b70caf5c36a7b1, 0x109b7f411ba0e4c9,
    0xf24a8c06e10cca03, 0x1fd4481b50a1fe21, 0xf9ef54863e70528a, 0x2a134348c8660efc,
    0xa1b33520bcfce37b, 0xd5f6f1ffb63a7dbb, 0x4bd80089e99edf8e, 0x0aeb5023bbb9a64c,
    0x36fc51fb7cb933d1, 0x406c5960ab261558, 0x25ecb5f0bfdc9995, 0x141a6d0810366ae2,
    0xbfe87497f1e2c5b7, 0xcc0b2539990bc0b8, 0xbe776f404dca6626, 0x09d2ea05ef54dadb,
    0xfedb68592ba8118b, 0x94be7c11ad24378b, 0xb2b70caf5c36a7b1, 0x109b7f411ba0e4c9,
    0xff1a16e91719cdde, 0x22d4a5432441bfe8, 0xd104d5f8ef70891d, 0x1e56d244a8e41be5,
    0x8ba4d5c5f50c7b49, 0x5e09447fa85c2fd6, 0xec908b2f99b5c4fd, 0x1d4f020c57c4f14a,
    0xee1e833764c18fd3, 0x8d82a1e09db80fb0, 0xe09f4e14cd03398d, 0x0763911a3a92a4f0,
    0x684366e54b302946, 0x1fc5d9a2c5e47e55, 0xba2ec68f9061643f, 0x12857275be2fe6b9,
    0xfedb68592ba8118b, 0x94be7c11ad24378b, 0xb2b70caf5c36a7b1, 0x109b7f411ba0e4c9,
    0xd0ebf50d1bbf87c0, 0xdc0a60353c5d83d4, 0x655ffe9a96c4b81a, 0x2ed11ccd2e2e2376,
    0xd288a21543c6d594, 0x726d5b1c2cfbb4ac, 0x5b320d5e3e966ef4, 0x03e31de8958e8264,
    0x6ec2ca4a36e71963, 0xda28a608d7e90536, 0x58ae890046533d58, 0x11e880dfefdbd088,
    0x90dc25e969a507b2, 0x44a34662978d53c1, 0x0704a9c3cc21ab7a, 0x1835b275deaed2d0,
    0xfedb68592ba8118b, 0x94be7c11ad24378b, 0xb2b70caf5c36a7b1, 0x109b7f411ba0e4c9,
    0x419f372ff8d3c3f5, 0xe5d44f76f1324240, 0xce5a4a9480e1d82c, 0x068b75315e25ed4a,
    0x98ad3b22823274d1, 0x268fccd795c839d6, 0x2b052d2ad12b92a4, 0x1b7ef7d04aec73d6,
    0xc240d30bbaa9f03f, 0x16b670727f4b8efc, 0x6f6193ff5501b572, 0x28c0c848022a9060,
    0xd6e5d82d4f068e1b, 0x54370985a16660ef, 0x686a7bfb1c39f3f2, 0x13bda49296cbcc51,
    0xfedb68592ba8118b, 0x94be7c11ad24378b, 0xb2b70caf5c36a7b1, 0x109b7f411ba0e4c9,
    0xfd38490d3a594141, 0xa945729f86c3e0e2, 0x11eb10b34265e378, 0x2e7987ea8204389d,
    0xe5415fffd03935c8, 0xef702aeffda3226c, 0x4b2b45c10a190fed, 0x0826d4a2324ad3aa,
    0x685f93b434036ded, 0xbb964a85435c3b59, 0xfa3675ef541c9df7, 0x002dbeee85eaeaa9,
    0x966a4be599cb86c7, 0xe6fa44f5f5c5abfb, 0x919418ecb3279b11, 0x227ee7a945edaee6,
    0xfedb68592ba8118b, 0x94be7c11ad24378b, 0xb2b70caf5c36a7b1, 0x109b7f411ba0e4c9,
    0x8d541471c7244220, 0xffadc23986de8c69, 0x05ac90d696faf2a5, 0x1d0a6d1a95198778,
    0x9f4de02b25f6e9d4, 0xd10eea1db284ec3e, 0xda4f333b7854fbbc, 0x2208aaba508ae816,
    0x175720971ccf04ec, 0xc9e59268e2f8e01a, 0xe36a7d29b587a215, 0x28a58901035b2c99,
    0x226f38a8adfd6238, 0xf317a2a14ffc0191, 0x123a07865ca1376d, 0x0112f6d8d42b0a0d,
    0xfedb68592ba8118b, 0x94be7c11ad24378b, 0xb2b70caf5c36a7b1, 0x109b7f411ba0e4c9,
    0xaf906b6d3c6e2308, 0xc727f97fb4d01f1d, 0x3174dda182d266d5, 0x08c6eb19c016d183,
    0xcfea9103f73f1879, 0x75b1be9a48c8698e, 0xd0b38b95f9c642df, 0x1359d2d6c8b5a116,
    0xed42b699c4af3ca7, 0xaa07aacf7725f8a5, 0xa467c1cc1878d91a, 0x10c5052ec67ab9b6,
    0x0193823684c96c75, 0xafdb188d5d4e9f06, 0xdb708803e6338fc6, 0x0583c4d292d54f3c,
    0xfedb68592ba8118b, 0x94be7c11ad24378b, 0xb2b70caf5c36a7b1, 0x109b7f411ba0e4c9,
    0xee2c18bfc06f57b4, 0xbcd1fe2b3e076e16, 0x1a4054c5b96322e7, 0x2d94a1c55be38215,
    0x0dbc64dd2211c3ec, 0x3ef77c671927ead8, 0xb997369579c1b170, 0x15e3402fdde8770f,
];

/// Sparse partial-round coefficients for state width 3, elements 128 to 255.
pub const T3_S_1: [u64; 512] = [
    0x302677e20a727be3, 0xb5000bef8bb902eb, 0xf7b21e6b867d5a71, 0x185be98784817f22,
    0x5ca14cd94de467b6, 0x8aad1b00c054547b, 0x66ed8927c89890aa, 0x18db4321c721c036,
    0xfedb68592ba8118b, 0x94be7c11ad24378b, 0xb2b70caf5c36a7b1, 0x109b7f411ba0e4c9,
    0x4eb2134a039b5126, 0x528849bcd2cd0aff, 0x0c390b3f3d799188, 0x2a852b6247f5d61f,
    0x165930204da58f22, 0xa5276f6de1cd771b, 0xe65fb9a18ee0124a, 0x2510aeed51b7f506,
    0x77d6486513bab5f2, 0x47b7fb54dcad1d79, 0xb5bd3a236f03a47b, 0x0f2074a32eb8260f,
    0x4971404bfa044090, 0xc3531c9e12c4c2c8, 0xa8270e19941926ce, 0x2f4c69297866bd45,
    0xfedb68592ba8118b, 0x94be7c11ad24378b, 0xb2b70caf5c36a7b1, 0x109b7f411ba0e4c9,
    0x9b792c562a37473f, 0xe92df5fd5f3fd75e, 0x05d083a65093c0d0, 0x154668727d2dbadf,
    0xa91e5b0f7b13cadf, 0x8d3e2e375bcd1194, 0x4fd77fc5ab5c8c4e, 0x1e6ffc5d6a1ff5dc,
    0xfafa389da29990c6, 0x98c8b2d428538571, 0x9d75acbc9395cb83, 0x2cf1a1d7c4430910,
    0x6ecf64cf793c9880, 0xaa5d8a023e24cf01, 0x87cf76cd5ce8da47, 0x140fb39a89f26f6d,
    0xfedb68592ba8118b, 0x94be7c11ad24378b, 0xb2b70caf5c36a7b1, 0x109b7f411ba0e4c9,
    0x8298a93a8589f9e8, 0xce2c16dac159990b, 0xf0712b201fb3cddf, 0x1289d13d58a17b5b,
    0x610920fe98b2db2e, 0x370cf56bc5218749, 0x5781e8d3d207adc8, 0x0f45cf974d2c9edb,
    0x8687a1c9eceb44d4, 0x585a81d1b333568b, 0x6b79edfd24f5abcc, 0x11909c81a1651804,
    0xfd7bbd6792330d16, 0x6917672f2d5a1041, 0x09f3b891a0e3da4d, 0x2990b23c81882f77,
    0xfedb68592ba8118b, 0x94be7c11ad24378b, 0xb2b70caf5c36a7b1, 0x109b7f411ba0e4c9,
    0x2ecf461e4aef7277, 0xe0a083ea9a16dc10, 0xcd5560e0821e7285, 0x0609551b14716ca3,
    0xc0880eaa08d03f77, 0x6175de1755f4f93d, 0xfd93dced2467354b, 0x0c8c1abdfab99d03,
    0x8a7a55d08f2e0b10, 0x0db3fed298ec09f7, 0xbd02f33f8bec6c73, 0x138bd098c4923b9f,
    0xf21bb5a3190f14c0, 0xdcd0b45ce07d9ae3, 0x4673f0f77161ae55, 0x2e61e4bc02163011,
    0xfedb68592ba8118b, 0x94be7c11ad24378b, 0xb2b70caf5c36a7b1, 0x109b7f411ba0e4c9,
    0x5ddb408260d8e910, 0x626abd1c22401c90, 0x65a9c4060ce3297c, 0x0124860913e3df8f,
    0x6c6ac8b7ed052ec8, 0x125f24c5701d9828, 0x3ec104804d955cbe, 0x013807f89c394a13,
    0xe85578abb0fc2fe5, 0x59aa444050c8f4c4, 0x132aa9eeaec08d2f, 0x2e88d1a6938f0788,
    0xe8fcc1f26abf3104, 0x2257be3c3ba607c2, 0x0a0cbf64e1f1787e, 0x01f3d24f17cfc605,
    0xfedb68592ba8118b, 0x94be7c11ad24378b, 0xb2b70caf5c36a7b1, 0x109b7f411ba0e4c9,
    0xd9b62f82f0f8d0bf, 0x3fe6c76a82a916bf, 0x3b9d4f133d41fb5b, 0x1fe1cb0e2ae169f8,
    0x5e3377f9177071f3, 0x19946f3d8d1c48bf, 0x353329221229827e, 0x0ef79351229409cd,
    0x89088608373beda9, 0x507551883127860e, 0x1c4893ef77a9d111, 0x18fb2e46fc1b90fe,
    0x1916bd57120d1868, 0xc0ad6263a68c5cb6, 0x4c32ef0761e23a3c, 0x077afe2579f42ec1,
    0xfedb68592ba8118b, 0x94be7c11ad24378b, 0xb2b70caf5c36a7b1, 0x109b7f411ba0e4c9,
    0x48b186f1490b7b99, 0x4e2ac9836fdd65d2, 0x2642c04ccf8a6ea5, 0x079769092daa5a75,
    0x663c76cf76bab4a5, 0x67eb9734606b676b, 0x254eb6e09c5c8bfd, 0x1d8bf229c19968f0,
    0x428f29f6ec1bddad, 0x7664f14236f17256, 0xf93556e49e4b3773, 0x2a33b7d855e7fe55,
    0x340dc3187ccca8b2, 0xb2056077e7aa7536, 0x4ec161c86e84ba6a, 0x25b0331d7e2b15af,
    0xfedb68592ba8118b, 0x94be7c11ad24378b, 0xb2b70caf5c36a7b1, 0x109b7f411ba0e4c9,
    0xf4f13f22342474e2, 0xffcf8ccbb92c16e2, 0xccbf45e4810211b0, 0x0762098f5fe26598,
    0x6dece2b6172c2514, 0x2362e144185c7071, 0x6d0da4c007b1bda4, 0x0e234d720d70b288,
    0x135c811152aa4b60, 0xea72182f11c0c60d, 0x6e3742e720b7fec2, 0x1d82bedccd2bc8a0,
    0x14bd1c690a17c979, 0xc3397fd6b94d4813, 0xa5e9a3e7d05930b7, 0x0480064d4b3eb0ad,
    0xfedb68592ba8118b, 0x94be7c11ad24378b, 0xb2b70caf5c36a7b1, 0x109b7f411ba0e4c9,
    0x1867f7464fb0c11a, 0xc8e4580568560cf4, 0xf7593fbb1140edc8, 0x10a892763b3cca9e,
    0x4dde4cd7f4de8b91, 0x5978b315667ae471, 0xc921f9b255368078, 0x0b5ec64548ea841a,
    0xce3c65c9db931d46, 0xd78010edd030e1a9, 0x49761bd7131dfaeb, 0x10554aca4e348e59,
    0xac648fab3db0cff6, 0xb9be9de306e150d4, 0x8b93655462b1f475, 0x15be66f38d86b099,
    0xfedb68592ba8118b, 0x94be7c11ad24378b, 0xb2b70caf5c36a7b1, 0x109b7f411ba0e4c9,
    0xaaf308e427d3dbe8, 0xf6c26e9d4ab0c23c, 0x82d182957ffad01b, 0x176ad3600fd34911,
    0xce82b5cf0af2e6f2, 0xe3beb20f4fc11bd3, 0x9335001d705ac125, 0x2b6f355b3dbf65f0,
    0xb6de9ff788c77451, 0xa8448c51288fa296, 0x81d7c89edefb32d1, 0x01c85c06a6d5d40d,
    0x51a70aaac2460d79, 0x2361c389e43f7d1f, 0xbd9a51d76b2e25f8, 0x20e1e876c4746a0c,
    0xfedb68592ba8118b, 0x94be7c11ad24378b, 0xb2b70caf5c36a7b1, 0x109b7f411ba0e4c9,
    0x2d987dda9217fa08, 0xee3b08ce73770139, 0x2a024b637bc35a29, 0x20e46219f684186d,
    0x28be0f2ed6091367, 0x480766367a8bd90e, 0x654e987907277c24, 0x2ea7279db9f2aa0f,
    0x641be95091780f74, 0x0969dc077c9171b1, 0x362096d472bc75ca, 0x136be2a7f18924c9,
    0xc924baf0df5a0e9e, 0x19ed5736fbc8f1f6, 0x3067c4300fb0f511, 0x1ca2033501baa3f7,
    0xfedb68592ba8118b, 0x94be7c11ad24378b, 0xb2b70caf5c36a7b1, 0x109b7f411ba0e4c9,
    0xda810832b48a50c7, 0x25824f7a4a9d9fa1, 0xecaa75e495f34e35, 0x0a82f199c2505277,
    0x7925a2dea580b7d5, 0x9f37a2722e7ed9eb, 0xe92fefb0d7f7782a, 0x0ecf10485307b4ba,
    0x6aebbbb339a3936b, 0x68615c8478f13af1, 0xd12aa22f08a8296d, 0x07b642138dfd6a6d,
    0xcbc3b6dd0f1a2150, 0xd70e760ba76d61e9, 0xd2256d34921fb86e, 0x1d9dda43a25593ff,
    0xfedb68592ba8118b, 0x94be7c11ad24378b, 0xb2b70caf5c36a7b1, 0x109b7f411ba0e4c9,
    0x958ce2fd3d7d2fce, 0xd5367eb08213d392, 0x1dc91136c91c6bcc, 0x2f1af228520c8b75,
    0x18551a45a6cde123, 0xe61ada625a1a2b6b, 0x5c6d6c1ab3de4aba, 0x1fecfe833ad54045,
    0xbdd3ad28e4a23c88, 0x5657ff8a77abe637, 0x3b0d758346022757, 0x18fc8e608c735b2b,
    0x86388a7547faa815, 0xa43ce0b618783a55, 0x6ebf03cb3f53aba8, 0x28f740bc1182e970,
    0xfedb68592ba8118b, 0x94be7c11ad24378b, 0xb2b70caf5c36a7b1, 0x109b7f411ba0e4c9,
    0x2bed35b7146966a4, 0xe960a4851cfd1382, 0x94ad301e4b998d29, 0x047998cc0af5a26b,
    0x30a14a692b777b70, 0x9725c7b52e880ee1, 0xdda43e415e1b9a3a, 0x1b5f1525b31db911,
    0x945fa57ed5c8de6e, 0xf770ae9bd1d7b1af, 0x5f65e965a90eac9b, 0x275a83fa5d19b453,
    0xce3e40a6f6a27aa8, 0x2a563359808c9897, 0xcb430568e49bc9dc, 0x2e8789257ed2cbcc,
    0xfedb68592ba8118b, 0x94be7c11ad24378b, 0xb2b70caf5c36a7b1, 0x109b7f411ba0e4c9,
    0xe2925a39c8e2c7c1, 0xf60c34500dcd6e41, 0xeb2721a4c09e9d17, 0x0927f46cfe80feef,
    0x0e484bbfe7698101, 0xfd8fb2cfbc1ecf9e, 0xc37619bfe6ab6a97, 0x1f868ae04832a5db,
    0x9ce6d56c9b45eff4, 0x65d94ba80f308fb1, 0x09b73f745b2defed, 0x09d7a11e27d2f531,
    0xb0c351aa2b879dff, 0x9a7b25924fda5995, 0x104e1c2823fb7c5b, 0x282d857cfe8da3b5,
    0xfedb68592ba8118b, 0x94be7c11ad24378b, 0xb2b70caf5c36a7b1, 0x109b7f411ba0e4c9,
    0x987fb0f6ff49c217, 0x27576e135c0744f6, 0x3f349ff830ae663b, 0x20ba8a9fcec815b1,
    0x66a8ae4dcbfb136e, 0x6d57b471ddd2ab1b, 0x4589fba12e657d22, 0x11b6afc91e32f1ca,
    0x908141736cebc3be, 0x4788eec2c72ddf3f, 0x316e335c7d93db34, 0x2e666402ac9cc588,
    0x74920f2794f18595, 0x7057aec5c9ed9a1a, 0xa202a110e283faad, 0x17522e0e9e64f795,
    0xfedb68592ba8118b, 0x94be7c11ad24378b, 0xb2b70caf5c36a7b1, 0x109b7f411ba0e4c9,
    0x878cb9878edbd3b9, 0x9e6adb40e2ff24b7, 0xe20b470cad4cc731, 0x2d2ed17f7a1f3ee9,
    0x3c937da16c7bf9f4, 0x8f75e54a8136f4d7, 0xa96fa276e89e85d0, 0x1a81efb19d7e1eda,
    0x15a16bb3bd33e237, 0xf299c5f451c7a0d5, 0x210a7b44e52e5630, 0x27ff57c1ca847e57,
    0x11be26a7f5fb1a94, 0x840d117b3c6a5a0a, 0x3c5be96031bfa167, 0x1c1a8e22230abcd1,
    0xfedb68592ba8118b, 0x94be7c11ad24378b, 0xb2b70caf5c36a7b1, 0x109b7f411ba0e4c9,
    0x9d5836f9c19a5657, 0x0d81e7774d2c32b5, 0x43627a9cd533e425, 0x02a1c3f15d4927c8,
    0x85acb219899357e4, 0xaf0373a10ac112e1, 0x1c52499b37cb4be1, 0x2ddbb7239eb904d8,
    0x8a86fad6da0afb60, 0x8edf8bc25edadab4, 0x4e0d6faec54be81d, 0x0dff198393085a75,
    0xb6d5f504bd1645ca, 0xec8db28728789f28, 0x76275fcc589d038d, 0x10d50c2473146bbc,
    0xfedb68592ba8118b, 0x94be7c11ad24378b, 0xb2b70caf5c36a7b1, 0x109b7f411ba0e4c9,
    0x536b08b4476c1538, 0x231ba45948506282, 0x2a53dfd40e1022e6, 0x061e8328fb5593f9,
    0xcfa5a0dd9f6d9784, 0x067debf3f07d3c51, 0xd90b644bee31ac58, 0x1b589243847198de,
    0xe6f67a420a3bd1f7, 0x190f0bdcced99d5c, 0x9863b053bd4c6087, 0x04b00c0da1f851e5,
    0x3bec8cdcb5ddfd67, 0x27f8a8d42e35018b, 0x126a70163009a7ac, 0x239941a46c2b93d9,
    0xfedb68592ba8118b, 0x94be7c11ad24378b, 0xb2b70caf5c36a7b1, 0x109b7f411ba0e4c9,
    0xe87ef6814acf2ea2, 0xbfc9bc3ec0bfecb4, 0xc2c35377cb0a3712, 0x204f26ca7993b03a,
    0x48ef117e926d721c, 0x5747cf7308d515e3, 0x39d832d8be165a1e, 0x085aff9c7fdadba0,
    0xefd375df00ea2068, 0xf10e57d05e093158, 0xc4ae9db044c0b0b3, 0x249042a8dc111f27,
    0x3e0825977413e96b, 0xf84550665203327b, 0x542854f3029803e2, 0x06e799bcdf2b4a74,
    0xfedb68592ba8118b, 0x94be7c11ad24378b, 0xb2b70caf5c36a7b1, 0x109b7f411ba0e4c9,
    0xc612496183b87996, 0xfffed333cae12085, 0xa9f4d2c002921bc3, 0x1cb3caed4bffb6ac,
    0xdcd99e84d310d51c, 0xdd6ea03cab566889, 0x28a128bfd4faa6a3, 0x0b47e9755fae4801,
    0x3f0bb730da886a4f, 0x506293bc024fd1ca, 0x920a0c9fd2c360a6, 0x0c7e4cea365c2061,
    0x8dcd7ba4187215df, 0x3dbe1b20d9d6988c, 0xbbaa30d964d6f6f6, 0x21da1f701bac77bc,
    0xfedb68592ba8118b, 0x94be7c11ad24378b, 0xb2b70caf5c36a7b1, 0x109b7f411ba0e4c9,
    0xdd1a9486e3c6cc55, 0xb86b47bd19965b6e, 0x70905fb67899d10d, 0x09ae612e8ba1ca13,
    0xfe1f7a0e3b95cf3d, 0xaab75445b0c99373, 0xc150f284491190e6, 0x262e1e0b56cac47f,
    0xaa5d3f67491d34bd, 0x2a7bfa5f29fd4dde, 0x2c87c293e3bb7c9e, 0x234bf4a7dce7587c,
    0xeee67f6cb69f70c2, 0x58d2690e213d7432, 0x2d0a527cac744fb6, 0x2f6cbac694c886b0,
    0xfedb68592ba8118b, 0x94be7c11ad24378b, 0xb2b70caf5c36a7b1, 0x109b7f411ba0e4c9,
    0x9a3300876dec3ad9, 0xd52aa1842fff818d, 0x7bb8c9fdf78b7ade, 0x22accb18b7c49b4b,
    0xbf623a1df7f8f2fc, 0x2eabd9182a0b3d3c, 0xd659f22d2c77be30, 0x081e2f0652f898c6,
    0x16b3186ad675b935, 0x534b962890f3ffc0, 0xcea3ada75d669b8c, 0x12c0a25e70d006ec,
    0x9f8d4f2381df3259, 0xb56efd349edd56f4, 0x2fd6fc869df24d7a, 0x10ef9c23848128cc,
    0xfedb68592ba8118b, 0x94be7c11ad24378b, 0xb2b70caf5c36a7b1, 0x109b7f411ba0e4c9,
    0x0bda347962b240f0, 0xc2c1d41b9491e062, 0xd4a81262b71df1bc, 0x2161cd280772819d,
    0xb7f4fdd12cb8d38a, 0x92533364f799bc41, 0xb406590041b52482, 0x2cebb0ae5108318e,
    0xb759e08709a0a62f, 0xf2852283a656880f, 0xfe4f7c22d9561f3b, 0x2b2092f86b5979a7,
    0x82b2d8507a065fed, 0x50cfc900cf643e73, 0x08146188425a4424, 0x1566b3402d774b8c,
    0xfedb68592ba8118b, 0x94be7c11ad24378b, 0xb2b70caf5c36a7b1, 0x109b7f411ba0e4c9,
    0x1a163e601d1a0173, 0x627c3635fccf8d3d, 0x8fb4c56d6c57ba01, 0x11a316aa31607f26,
    0x52e353d9c2874e44, 0x08a5e84346446091, 0xb782648b560e5954, 0x0de7ee069c934256,
    0x67128b8949eab1af, 0x5845c36ae706c72e, 0xcc84df0297708c5e, 0x02d36f4029245704,
    0x284d7951d546f858, 0x99bde46cd82dabdc, 0xf53198c217fb34e8, 0x01b8cc326b5ee160,
    0xfedb68592ba8118b, 0x94be7c11ad24378b, 0xb2b70caf5c36a7b1, 0x109b7f411ba0e4c9,
];

/// Sparse partial-round coefficients for state width 3, elements 256 to 284.
pub const T3_S_2: [u64; 116] = [
    0x96ece85407550ebb, 0x4cbf9203fd4ddf8a, 0x10689fb2187b7169, 0x27625da0f73ea071,
    0x99ba025b94e4790d, 0xdea349c3edda06cb, 0xcdc0da581a6950f6, 0x1cd8338a3e5b1ad7,
    0x7a10a84072741a56, 0x78a8aed8d3e67e87, 0xa763856c94b6438c, 0x05ea02d65b209f6d,
    0x817743ce03330a55, 0x8b6250ced627e810, 0x5366cfcf284a895d, 0x09f7cb68d4e388f8,
    0xfedb68592ba8118b, 0x94be7c11ad24378b, 0xb2b70caf5c36a7b1, 0x109b7f411ba0e4c9,
    0xdfeb969e9d5c1212, 0xec13995a202e4ebc, 0x27b043f5e58dbd1a, 0x18c6230ddc0f8968,
    0x0578232096db6dcd, 0x452e4f07bfd2e1a1, 0x1a91c0a0fdccdaa8, 0x073a6114b997285e,
    0xa3e7742b2f37be7f, 0xfe013f39b1660ce7, 0x22c6a1fc0838adf5, 0x2e78746340b2a6d2,
    0x8e675259d3e5c851, 0x49b7ea846553def2, 0x06303ad8e5e4bf42, 0x07aa27e7150baddd,
    0xfedb68592ba8118b, 0x94be7c11ad24378b, 0xb2b70caf5c36a7b1, 0x109b7f411ba0e4c9,
    0x0cbc98345715ead8, 0xa90273ccb4643f68, 0xbf623d2712cf4d9f, 0x0b66fdec210ea4ea,
    0x41acea41c49aa5e3, 0x9c0601ce0b140be6, 0x9b633b8a4d6be51c, 0x2fb6a29d9f394a58,
    0x75a69dc889b2ce2a, 0x8569fb243d049bd6, 0xfc845e9c1c2cd128, 0x29025cc66fd041c4,
    0xb85d534b17be3f48, 0xf7ed731cfa695168, 0x4126214ab9c627a6, 0x150963f0aca9bcbe,
    0xfedb68592ba8118b, 0x94be7c11ad24378b, 0xb2b70caf5c36a7b1, 0x109b7f411ba0e4c9,
    0x98a08a32a61a8a65, 0xb5bca2e47bec0d57, 0x3f72c1bfc6656eb7, 0x0ed5978030225766,
    0xc8d30c06143cc084, 0x1c11888a3000debf, 0x3d30ae188c767f39, 0x07e19cb8a893369b,
    0xcd860afb4a3aa272, 0x2b6ecfe528d2c052, 0xe5f1eeeafb5eb8ec, 0x0600c7d2b6946345,
    0xa0125119f0385705, 0x773f2cd0a480e19e, 0x3022a1f33d6523b4, 0x0596083b6c972bc1,
    0xfedb68592ba8118b, 0x94be7c11ad24378b, 0xb2b70caf5c36a7b1, 0x109b7f411ba0e4c9,
    0x6db21043631e24c4, 0x2e64513099a8e1ef, 0x7f98b9d8663d85db, 0x210b5c36f27a07d9,
    0x26a8f4930b7883f9, 0x01c2489874e91593, 0xc7bb9f3d563c5cc2, 0x13bb2764bf1475cf,
    0x219e4b7576e24d30, 0x287872b181e89997, 0x80eb082862a76757, 0x202cf557d625c260,
    0x28ea1f95fd8824b2, 0x01fbc5a03d905a47, 0x76d49e97142d2206, 0x0e561c3f8bd4f76e,
    0xfedb68592ba8118b, 0x94be7c11ad24378b, 0xb2b70caf5c36a7b1, 0x109b7f411ba0e4c9,
    0x7c33ae9ed7890597, 0xd57dd859bbe82730, 0x471785de07bd9809, 0x0de20097480e7555,
    0x0cde8edd76d2e97d, 0xfd2825613cb72bb8, 0xb810df8c5788eebc, 0x072f2a6287fb984b,
    0xd62940bcde0bd771, 0x2cc8fdd1415c3dde, 0xb9c36c764379dbca, 0x2969f27eed31a480,
    0x326244ee65a1b1a7, 0xe6cd79e28c5b3753, 0x0d5f9e654638065c, 0x143021ec686a3f33,
];

/// The mixing matrix for state width 3.
pub const T3_M: [u64; 36] = [
    0xfedb68592ba8118b, 0x94be7c11ad24378b, 0xb2b70caf5c36a7b1, 0x109b7f411ba0e4c9,
    0xd62940bcde0bd771, 0x2cc8fdd1415c3dde, 0xb9c36c764379dbca, 0x2969f27eed31a480,
    0x326244ee65a1b1a7, 0xe6cd79e28c5b3753, 0x0d5f9e654638065c, 0x143021ec686a3f33,
    0xd6c64543dc4903e0, 0x9314dc9fdbdeea55, 0x6ae119424fddbcbc, 0x16ed41e13bb9c0c6,
    0x29b2311687b1fe23, 0xb89d743c8c7b9640, 0x4c9871c832963dc1, 0x2e2419f9ec02ec39,
    0xb16cdfabc8ee2911, 0xd057e12e58e7d7b6, 0x82a70eff08a6fd99, 0x176cc029695ad025,
    0x791a93b74e36736d, 0xf706ab640ceb247b, 0xf617e7dcbfe82e0d, 0x2b90bba00fca0589,
    0xc8aacc55a0f89bfa, 0x148d4e109f5fb065, 0x97315876690f053d, 0x101071f0032379b6,
    0x73279cd71d25d5e0, 0xa644470307043f77, 0x17ba7fee3802593f, 0x19a3fc0a56702bf4,
];

/// The matrix applied before the partial rounds, for state width 3.
pub const T3_P: [u64; 36] = [
    0xfedb68592ba8118b, 0x94be7c11ad24378b, 0xb2b70caf5c36a7b1, 0x109b7f411ba0e4c9,
    0x5a8a79a66831f51d, 0x6203f5f24ae72c92, 0x3f83dcedddb9a023, 0x1e6f20a11d1e31e4,
    0x4084e3027e782467, 0x484f426725403ae2, 0xc722a141f8785694, 0x1bd8c528472e57bd,
    0xd6c64543dc4903e0, 0x9314dc9fdbdeea55, 0x6ae119424fddbcbc, 0x16ed41e13bb9c0c6,
    0x90527a1a5f05079a, 0x7143625b0a9e9c31, 0x6bacf1ad5e56655b, 0x2d51ba82c8073c6d,
    0xb5f927fe8d6a77c9, 0xce0611f940ff0731, 0xe0ab10fc2e51ea83, 0x1b07d6d51e6f7e97,
    0x791a93b74e36736d, 0xf706ab640ceb247b, 0xf617e7dcbfe82e0d, 0x2b90bba00fca0589,
    0x5a3e53f0bc5765a0, 0x093cdef1ccf34d98, 0xe8376f62d19edf43, 0x11e12a40d262ae88,
    0x8a3ef37cce8463bd, 0x1574f980d8903830, 0x9c6f3e47b5ff5578, 0x221c170e4d02a247,
];

/// Round constants for state width 4.
pub const T4_C: [u64; 352] = [
    0x8b0878e269ed23e5, 0x02bb86744edc2623, 0x48da1d39bd5e4a43, 0x19b849f69450b068,
    0xad47f80c8dcf34d6, 0x20eb2cc7450acc1d, 0x7239347b758f0a13, 0x265ddfe127dd51bd,
    0x3dfc36bab497d8aa, 0x4108ac845015c2aa, 0xe0f66a545e1e5162, 0x199750ec472f1809,
    0xd032f787c7f1cdf8, 0x4d743ea25067f0ff, 0x110f06a5f74302b1, 0x157ff3fe65ac7208,
    0x4a4ab5a32337b8f8, 0x45945842e7018378, 0xa4d05b377b58aabc, 0x1b0f68f0726a0514,
    0x9fdef1a425e27526, 0x85509dea4245db47, 0x30569d69342d374d, 0x1228d25657871404,
    0x96eeb91283585e0b, 0xb8c1d245d52f53ff, 0x50875c36a89610f7, 0x17a8784ecdcdd6e5,
    0x2e0ceaa250aaebaf, 0xaa00adcfc31520a3, 0xb2d5ee7ae865aaf0, 0x09870a8b450722a2,
    0x78c0a6d3f9372a64, 0x2bbdb7847f940ebc, 0xe4055c6b6f03a49b, 0x1e1d6aaa902574e3,
    0x9103d03266550db2, 0xef40f30190ac6100, 0xe1eec1eefd92ee9f, 0x2816c4fa6b085487,
    0x4d4d502d427ff51c, 0x660634efbad15dcf, 0x67000e83f76ffb46, 0x17359fd88be36ba8,
    0xad879610b8661022, 0x4cbac203c0f236ba, 0x3f16fefbd0c02640, 0x0e3004cb44ba455a,
    0xb496193d6b04a7ca, 0x11ca4af98c833bc1, 0xbc6c6820f334b26f, 0x0a55f276af1ceb6e,
    0x1d31b9b877e8346d, 0x981d320b6b8e20e5, 0x4861a27adc1404a5, 0x01ee4b0458adcd4c,
    0xb3841da1b4f482f1, 0x7c194a4054e69872, 0xf70199f8645d78f8, 0x14315e2753e7fb94,
    0x6b0d75e88a6a56d6, 0xf266cb57e17ebd1b, 0xc660f435ad9e2e25, 0x2b7b63ecffd55d95,
    0x0f56e38db80d83c0, 0x4b652ebe95822186, 0xb46d4e7295bbe120, 0x00bb56fa3e9fd48a,
    0xb9c2656081249f82, 0x57218b33a8f92a58, 0x6d15fa6071f50050, 0x050653bf5dd59edd,
    0x98c5b13c86f1fcdc, 0x87900c8d58255140, 0x55c5a976c65d0692, 0x2c575423e24b5226,
    0xe568b07e218071d7, 0x99f72c1f78557a2c, 0xa32f74232b704cdd, 0x2ff3a2ccdee91e09,
    0x693dbe9c6238d90c, 0x0469eb89949491d3, 0x43b8bc6fc9d365f5, 0x1144734901a81c15,
    0xda217a98db80cd22, 0xd38bc694a9e75ea6, 0xaf20b6ab74d89e1c, 0x1eff9a954e24bcd4,
    0x1e49fad0301cd6df, 0xead6bfdbfc059979, 0xf97fe9bd7d485c20, 0x14707de7496c5638,
    0xa91d48ee536042b8, 0x8538acdd9b3ef840, 0x0fe3ef1f7ce0a54d, 0x13d0de341ba819f9,
    0xe9f151a903372ba1, 0x58c18afbd0da58ae, 0xded712d59b070884, 0x26520ab1d20055da,
    0x6d75296999f7495f, 0xa4c2790f5c65d986, 0x6e7537a3c0a06d08, 0x068cb4827ac485fc,
    0x282748d0e674e89e, 0x982cb389b438c8bc, 0xb03dfa0eb71136e2, 0x07d6baaa2e587c21,
    0x370851526de13d27, 0x126ffbc274cc3362, 0xb831eeab2e6ed75d, 0x15b92d36db02cb16,
    0x7e5a0d814cbc3395, 0xef5b9c1916b588cd, 0x7918ad5fcfab7323, 0x277b9ce89133de7b,
    0xd529000fa1802b24, 0x1f737092d65c3492, 0xb70b733040aa86c5, 0x2ae847b66b3c5d73,
    0x6643f21bf8efd651, 0x7e16e0af29e67570, 0xded6aba6dc25cf56, 0x2fa3e8ae1fef974c,
    0xa8b1087bc18a2088, 0x52dbd368fcbcd454, 0x9aa53f4efe46c579, 0x0b1d4b9508cec4d1,
    0x478947fafa569bb0, 0x393ac392e7958be0, 0x888b3273270babdc, 0x02d381014d01578b,
    0x68c41d4486fefec8, 0xbc865a45cabcba43, 0x2523a94431007021, 0x2e79a827c8540624,
    0x244f0a00c259b347, 0x0c804cd434098af6, 0x61d7e60cc2365c4c, 0x0207c99b7d594a5c,
    0x596badbe9edb2dca, 0x4360e97e6fb42ae8, 0xb83f14f262c69342, 0x119c124086ea58eb,
    0x413f8334f887a251, 0xc543f074f753bd8e, 0x3ccd0b68bddba09f, 0x104ff38cca0f0017,
    0xa87df4c0e2384253, 0x8dc038b8cb10e147, 0x845811eb26243663, 0x2f5b5377bd156f89,
    0x1f81476d0b5ea996, 0x0204f3e3b4cecd10, 0x8930a8e0db69b1c2, 0x0f70e8e02d1d2396,
    0x07dae4d56ad586b3, 0x5814db782b7f19f6, 0x22f90a03f006d857, 0x1ac4653a51071ae7,
    0x17823017a8b23db9, 0xfa41e74acabf7de8, 0xbdfae5ef9c4f3805, 0x12b12600e3bfd8e7,
    0x05ed1c30289fdd28, 0x417529a18a1d89c4, 0xb7e0f8d0ba77286d, 0x11b9d19908919dac,
    0x363a7484ace820d3, 0x5b00f4fb688895c1, 0x4744f88dbff8fe33, 0x2c350d245f4f7586,
    0xdf82603f422b461f, 0x82de17ef73e52da7, 0xb6ef94c22c78bff7, 0x16a7f76fd2b2147d,
    0xc7e285d1cc3db3de, 0x093545aa504033da, 0xc25626af06a139f6, 0x1d18d8024be1e96e,
    0xa9ed449be8f7c18c, 0x95466819fb94d8f6, 0x945b9b88228f53c2, 0x0c8cab1ad5998072,
    0x530109b756ad4f7a, 0x3c73b13384187ab1, 0x6ca30041913ce342, 0x1a68d133d703cd40,
    0x8ca0d860855e01a9, 0x23d03c80fcdef949, 0xf4c45342941417ff, 0x24a58b9e86ce823f,
    0xaed6acfe2f952c57, 0xb793c41c6a4386d6, 0x8021148b6c35320f, 0x0e6315c93fbb89d3,
    0xd558696e34c692f8, 0x95d87224795d7568, 0x299e876f5f218c72, 0x2c3806d99a69ce63,
    0x25db8273860fa04e, 0x376856ab89705dff, 0x4d49a356494568dd, 0x059c893a771e9477,
    0x260bec5e27e8b0f5, 0x7027d5cc56bf52ce, 0x982243d0deb1f897, 0x1166d9819c4faae8,
    0x4312e1537327e0a3, 0x65fc7259112af210, 0x2b79406c3c203c49, 0x12806fab3fcb09fc,
    0xdba35dcc1d8bda2c, 0x3dc3ead89f98ded0, 0x8f60aa33e82d3dd7, 0x172015e0e3373605,
    0xde7e6fd6392a0d30, 0x80296bf9d47a1b40, 0xa34f70ae8cfd68a0, 0x077ba18800d852d0,
    0x9d6e3c0fe79fa8b9, 0xf4a2d38e029e4147, 0xdf0d78d0d946e1af, 0x2094ecd768bfa8f0,
    0x1da9c7441a823f89, 0x7cd0bca08baa1e26, 0x0ff774d3c1f650ca, 0x0ccebd302afe84c2,
    0xf01485a6b568cd05, 0x0d5549871f1b5283, 0x73671f5d55b4052e, 0x005b9303053bb40c,
    0x389eeefd6ba4c721, 0xb816eaa68ee6bdb2, 0x75b4cd67d38311a2, 0x2527289084ab4922,
    0x2f6448c7503877f2, 0xd4e7417ed2661b01, 0xf2a3eacdad95f12c, 0x2222f9738290d8d5,
    0x1e581161c1789354, 0x160fcbe27ee741fd, 0xb7e02fe26557e6bd, 0x226c8208f26d69e6,
    0x441115d73c2941c5, 0x853e40d9204496b2, 0x1faf609e15f7a9d4, 0x216b208c0261f3c9,
    0x2fe134ca3d5a4dd6, 0x151fbcd75de33b12, 0x3bad6829729b6ae3, 0x0e0d660e046a259f,
    0x8cd52daaa0ffbba8, 0xace88aadaef99149, 0x6f39ba5c4ec48ac6, 0x240f039d2026b326,
    0x33e92fa5e1ee4d79, 0x876a4dfeb408ffe3, 0xcfd2eee0ec4d160a, 0x28c8cccf7b40a2c3,
    0xfa77b5a9844efd69, 0x957d2b2923d28eb2, 0x7c4243f045a852cc, 0x0d7f81b4b46d4f24,
    0xcbf54475996b772f, 0xcdb0200ac3b42860, 0xa82c788457651dd8, 0x2be432f87b2c5094,
    0xe555d35e70d4016b, 0xd45a63435e0ea4e5, 0xe187af14dd07b533, 0x13ea39f2d63d9ada,
    0x47870461977ec921, 0xaa65cf2b98ff3aed, 0xcd1cf4b047325abf, 0x29e3b1afe1973be9,
    0x48f3bc1a3c571197, 0x50a1cf1eb638bb4e, 0x5e9692498f95a1f9, 0x08db7d684e6b841b,
    0x4bec1243bd31618b, 0x77ea1a28fb6eeeab, 0x196da1c042124e32, 0x0f4f1041a976aa05,
    0xfe4c12bdc4c0ff1d, 0x7f8a26c251b51c21, 0x6b255f00e86ec34e, 0x05a9d0526d6f18c8,
    0xf1b8d17e52f2f3ff, 0x4410d472aa6eb00d, 0xbcf650c5ab85c89d, 0x284b0304dd6ce669,
    0x7ab10cc7aa3f06ba, 0x5902e725049294ca, 0x8962ff86907002f9, 0x2363e9b01a016359,
    0x05dd7e3ad260d842, 0xd8d7f115b3e040cb, 0x61dd3290a75c5f2f, 0x02c2db12647c4c04,
    0xb81486b14ffe3a74, 0x2422d5b993e9fda6, 0x60f3d0863ac44505, 0x2e3c42f671431f95,
    0x7782ffd97af5fff1, 0x3b4c0caa101371cb, 0x2ff2882560f5d7ee, 0x1d38441f228c0ce2,
    0x74c25ade2c794287, 0x79364dd133f2cec5, 0xb1d573ead4e2e1f3, 0x268141b0e49c59ea,
    0x6049f472d966374a, 0xf52af9a65dbd7b80, 0x2810d3f28868da6c, 0x2209cb2e187df152,
    0x91a319eca7c1ffab, 0x082034e5388bfaee, 0x1830d7974ac1677d, 0x0a5eb2510e6f804d,
    0xa7015e1089e36ae0, 0xa9d5ee52138e96b8, 0xf8f3ad98669d3ad7, 0x1cb2864c38800736,
    0x9aa277273321b54e, 0xe8c15c6c0d380a3f, 0xa547ee9bc6c7c6c5, 0x2af8ed05bfc8f8ad,
    0x32c49b1a96ac0f3c, 0x2bf1f0a3911d7841, 0xf79b222885555a25, 0x0f85d1593b35be03,
    0xb8b89707855008c5, 0x4567d351a6dad391, 0x59eba456295d95bc, 0x29095192ec53e0b8,
    0x113fbb6011177854, 0x0831f898c7843407, 0xeb02b4c4b8f51ac8, 0x1a92efde1f5fa56a,
    0x610614c184b0b02e, 0xdc73f3fdfa6b55f5, 0x77c080aa70fd6a86, 0x2a05e8deeea15e43,
    0x9dadcd1e71ad4891, 0x0b1dd4030b2ce28c, 0x46ecc80893e86f51, 0x12119f3b019cc3fc,
    0xe742c3a1c2dd3a1d, 0x3c60ed122fc225aa, 0x2bf6b73317286a54, 0x042b6ffe687bc23a,
];

/// Sparse partial-round coefficients for state width 4, elements 0 to 127.
pub const T4_S_0: [u64; 512] = [
    0x87947223ae5108ad, 0xe5e39942296127fd, 0x8a351dd786dd7a1d, 0x236d13393ef85cc4,
    0x609ea9c2fba8fa41, 0x1c5908b59ff3d76c, 0xda0bd5e72ab3cc62, 0x2ca7b911ea4f6a11,
    0x40df133385fd9506, 0x1ff5000901b9ce01, 0x77ba6a6f8ffe2db0, 0x2de5f3a5bbe5b20d,
    0x3655cdf9f81f67fb, 0xd3846d24339f926c, 0x7a52cefa903bbee4, 0x0a150cdbffe3c60c,
    0xe96d6a3bb32d2e9c, 0x87056d172e993bf5, 0xf47934dd0d5dd29d, 0x2026ad7e03636dee,
    0x4fdf78393c90151d, 0x524733d9cef80d40, 0xc5e1b6f5bf391141, 0x232507a3d48ca163,
    0x5c46074b865a1d83, 0x56e7189f8c1fe74c, 0x26a5a6c18336ec3c, 0x1b16b96e6aec89d3,
    0x87947223ae5108ad, 0xe5e39942296127fd, 0x8a351dd786dd7a1d, 0x236d13393ef85cc4,
    0x7fdfca1cfdabd35b, 0x94f02c5242eab1dd, 0x82411ff8a7a38848, 0x0fdf5d15426498ac,
    0xf7153c9463bfbd95, 0x875ea5c8282d90f6, 0xedf8ce61cd20b4f8, 0x097cfa1218fe00b4,
    0x5a9fdb4285ad9bda, 0x558aa856acbfe48e, 0x9926c3952aaf96d3, 0x0fd1ebd67968d1e4,
    0x917d849cfa02fb8c, 0x244a11d4cb753edd, 0x95d548d3b4fd1b00, 0x27d5dc47f6783166,
    0x70f3a169b88ae244, 0xa57bebfa5a0f5d27, 0x60321a70aa806562, 0x2602ddd7ea3a2808,
    0xee42070337088a89, 0x0fa387bc4141e009, 0x99776892b07366b4, 0x2fafd30b7fac7a66,
    0x87947223ae5108ad, 0xe5e39942296127fd, 0x8a351dd786dd7a1d, 0x236d13393ef85cc4,
    0x3178dbd963936517, 0x2866b17042d2c7c1, 0x560cee0b8e8320f5, 0x01b2ac2c9f97eb32,
    0x40d5b5e4deebb1f4, 0x3adb0f4f2b63c3f5, 0xbce24e1556ab9d38, 0x0c6db19118e83768,
    0xae35923c9c6a2261, 0x6b2016ee5a10de57, 0xea574997bf75caba, 0x0f94cafc14403845,
    0x31c3cc5a41980f5d, 0x4c1742f47dd2190c, 0x71b78022c80fcdce, 0x09145c337938ac3f,
    0x59631497a4f98863, 0x886524aded7e4f3a, 0x235b6f24f4c17747, 0x0a0ca462d8ae218e,
    0x75cdf6ce3fe0777b, 0x961e6292f2af29c7, 0xe3a7f68ff33b00cb, 0x1851288ccce2bdec,
    0x87947223ae5108ad, 0xe5e39942296127fd, 0x8a351dd786dd7a1d, 0x236d13393ef85cc4,
    0xbfb5a93ee3feab08, 0xcf3a60a043edfcd7, 0xedac791c80e82876, 0x09ad33992db79124,
    0xa9d347cbd4b312f3, 0xbd26667e61c50afb, 0xa989886c4c11e711, 0x0b320d1000c50439,
    0x32c5f47ce63f68a5, 0x42ae52bae1435dfe, 0x7b2a51391f25f916, 0x26123488a4f037ba,
    0x42607a8f3fcaa270, 0x61183b2f1e88dab8, 0xff5f63275add86c1, 0x0d7a4403c3407d64,
    0xb24150b310c71727, 0x7efa6423a9662f1f, 0x35d9b37e2d308455, 0x2cad68fb4be69ca1,
    0xbe77c36f8f27d4fd, 0x64cc57a8fc0d3645, 0x6a25e15226c09b95, 0x2e122deb202b0e2c,
    0x87947223ae5108ad, 0xe5e39942296127fd, 0x8a351dd786dd7a1d, 0x236d13393ef85cc4,
    0x0b68ba14f4cd65ac, 0x8cff2f37771c39cd, 0xc12ff83ce7deb2e5, 0x23e090845b17c18c,
    0x02be9d495d59a775, 0x596543f5c2407010, 0x83a30a5e631cb1e0, 0x08b041b40e47ef18,
    0x30b2b7a4b56f9a6e, 0x4182e2c85bbaac53, 0x109b92dff1b86310, 0x19d0ad6176cd87e6,
    0xbac4bbcdf31878bd, 0xbe372a797f86a621, 0xf758d023ea74c5fa, 0x11296e1ff67a98df,
    0xdb44732aea1b36ab, 0x89e439a40e6691d5, 0x5335624a4df555ff, 0x1b0943c04cc4c388,
    0xf8a6e047c5e9ac1d, 0x2cba4d5dadeb1749, 0x0e57ca3e51bf386b, 0x0c2cb45703a55a05,
    0x87947223ae5108ad, 0xe5e39942296127fd, 0x8a351dd786dd7a1d, 0x236d13393ef85cc4,
    0x19312700eef604a9, 0xd5e704e51de165eb, 0x8ab2f61b7e52e5dd, 0x20c061a0f7069274,
    0xb8a749dfb9f964f0, 0x03947ecd76426d6c, 0x42c03dac1557681f, 0x2aeb2df6a12c099b,
    0x835b681bc6813270, 0x88d97a72d8aa1be3, 0x2592a75d53083c31, 0x111fa84f89967775,
    0x544ad76165251f90, 0x752cc8c0327190be, 0x892b98a7783fb019, 0x1aad37ed6a2102cb,
    0xb3f8f2a0ffe86be9, 0x9b0dc3e5cbc7ab04, 0x56cd6163ef221f3d, 0x1be6d262a580b109,
    0xbec1c6ef72409fca, 0x9f8f4d8a5d212503, 0x59b9f17c0266c813, 0x19fb44907e93686f,
    0x87947223ae5108ad, 0xe5e39942296127fd, 0x8a351dd786dd7a1d, 0x236d13393ef85cc4,
    0xea1d6a7c421a586d, 0xfde4eae8fa51bf6b, 0xf30c6150e395dacf, 0x0ccbd07f12f007d8,
    0x1bb286e42b58cb52, 0x07bcd9603406be21, 0xc9c78633aa3bb378, 0x09a3428b0108143d,
    0x816902e915d8227c, 0x8798ac8f92661b2b, 0x52e863c4b0f51514, 0x2a7ab6ca90a4e66f,
    0x7e9a7c3c880a040f, 0x6b23c4367bcfab68, 0xf12f09a58f9535b6, 0x179239cb6d96131e,
    0x814b6463ad29b8ce, 0xd175f17abe2b2eed, 0x5d607140bd0b0944, 0x07f9eff8cd62907b,
    0xe83fe4b511458c8e, 0xfd7c801e0b457278, 0x8cee5c6f84e9b25c, 0x2f44cd6674099eae,
    0x87947223ae5108ad, 0xe5e39942296127fd, 0x8a351dd786dd7a1d, 0x236d13393ef85cc4,
    0x7816546eb732d8d9, 0x11ff0aae81f4faa0, 0x878b7d23223fd333, 0x241d4acb53e51cee,
    0xe0b7838f6f644560, 0x0711bb8838b3ad49, 0x8a9b2f09a84bef7c, 0x13016b694f63245a,
    0x7c31a78ce2929bd1, 0xff069cc479fa000d, 0x534647a5a2fe278a, 0x240a3ff47c2e7332,
    0xf7cd001d38146c30, 0x1061b07a18579325, 0x9be81ace3dfbf7cf, 0x1a510b683ed295b1,
    0x809059de3342c9cf, 0x1a928d5ccca5d79a, 0x5a95e295d84e71bd, 0x20c4eceba419b057,
    0x6a28908bc5dcff6a, 0x6a499b57ae1893e1, 0x6cda43c1aecd6c09, 0x0baf9899a51723a5,
    0x87947223ae5108ad, 0xe5e39942296127fd, 0x8a351dd786dd7a1d, 0x236d13393ef85cc4,
    0xfba1b6e0bece8eac, 0x071424364fd69c9b, 0x766510f46974ff89, 0x162315c3b31a4d5b,
    0x8f658c6eb86f47d6, 0xee58ca5d0560d15a, 0x39c806d757799fd6, 0x2f6a4f9489ad4e14,
    0x3f31a61bb6b4efa9, 0xc147a335e19f545e, 0x19180113f770041c, 0x0f67999a01cf660e,
    0xc407053635478fa0, 0x93a6fc67252a631e, 0x89456542d3d727b5, 0x09146d7f035d3797,
    0xd62af311cf91de5a, 0xcd63b0ee2f383b74, 0x5768d8491e4c86bf, 0x2e44a6eb2efede0a,
    0x6977ef04911d5e71, 0x260ee7a56fd35fb5, 0x81816c9aca5fe004, 0x160631bd9c547491,
    0x87947223ae5108ad, 0xe5e39942296127fd, 0x8a351dd786dd7a1d, 0x236d13393ef85cc4,
    0x0b636e12bb43c7af, 0x68862af285902b59, 0x5da94d5b7e897e97, 0x26f7f151e37cde40,
    0xb2418068e78dd02f, 0xc816cab0e4315306, 0xd15db8adf98d290a, 0x0eeffd18325f8754,
    0xbd4a369e6eaea49a, 0xb1aea5ee405bba09, 0xdf351ff703419da6, 0x284277b5d2b0fd66,
    0x05503196d682ca12, 0x12e7cffec60dd3a1, 0x7f884d111e05fa85, 0x13584c5168cf2fc7,
    0x224c886c97e9e2f9, 0x13af0e71fa686312, 0xe9dd1af991eaf3ae, 0x1ebd55190bbbaae0,
    0x2d8be06b1e136dfb, 0x3d29f8d292443a76, 0xea035af0cd9d5b76, 0x13a449ace196028a,
    0x87947223ae5108ad, 0xe5e39942296127fd, 0x8a351dd786dd7a1d, 0x236d13393ef85cc4,
    0x2efacf66164bd07b, 0x26cb56880bcd9160, 0x15656aeb3d02acc3, 0x21fa424cf90bf0b7,
    0x8a9bc5f961cd68c7, 0xa26c0ee1939d2cec, 0xbca8f52d73d0f3fe, 0x24694b5ba9200603,
    0xb6cc85c190e4e170, 0x5f2c719332edbbaf, 0x910dfb19ad89d7c2, 0x1a6d98f744fca59c,
    0x1bd91d1625c937dc, 0x2c34e641f697b536, 0x2dd95c69a28ab91d, 0x0ab904b12244246c,
    0x460374ded5b86770, 0xc048864129954800, 0x921af698cda67103, 0x0fd87c8923668cce,
    0x062465e1431c4c2a, 0xb410cf81de7f597d, 0xa1141e48f14bc691, 0x2098ce0512ca13be,
    0x87947223ae5108ad, 0xe5e39942296127fd, 0x8a351dd786dd7a1d, 0x236d13393ef85cc4,
    0xcfd6d690a85c27e9, 0x439daae630c054d7, 0x5cd0dfcd1dde7992, 0x04d94ebda7313ce2,
    0x98bd9b92b82ea455, 0xb4fa99d09d10105e, 0x6568fc4613e76c9a, 0x0af2fa274dd5b1e1,
    0x169577d2fc755af4, 0x858714e9650aac65, 0x70b491762e96e470, 0x19153b7441c48cd2,
    0x2417450e0585254b, 0x8a7c27c34f32f9fd, 0xf70674af65d92a90, 0x2a5c69d030248d78,
    0x4a8bcdebe06a88fb, 0x0518eced5230894b, 0xb61085560e259229, 0x0436d86f139382ff,
    0x448bc2e46090af99, 0x99b903ac8d9994f7, 0xe8cf2ea0608ace92, 0x23b40e7f1bd0b7fa,
    0x87947223ae5108ad, 0xe5e39942296127fd, 0x8a351dd786dd7a1d, 0x236d13393ef85cc4,
    0x64e256ab5937653a, 0x41142d4f35ce77e0, 0x0efebe904a3ffae9, 0x21427832371fd1ce,
    0x7998fb914dd46149, 0x8f8b331a7caf7923, 0x015a6ff483cfb5c1, 0x1b527a15f36d4f03,
    0x920dc233e5646338, 0x1afa6ace79ecf363, 0x89c6cde81ad9ad9c, 0x13d847e25b71d357,
    0x6be7dfec751bd480, 0x1366a41d7c326c82, 0x6580ff9f4bf267b0, 0x238b13365a6b8fcd,
    0x2731ded19882966b, 0x1f01ed887085eed2, 0x8fdece2e14114cb7, 0x2fdc1ab225df187a,
    0xc220fcf0458d1c3e, 0xb3fc27bd96905b5f, 0xb36e8eeec5c369a6, 0x2fc9fa00830e2671,
    0x87947223ae5108ad, 0xe5e39942296127fd, 0x8a351dd786dd7a1d, 0x236d13393ef85cc4,
    0x06b92e9f482151cb, 0x30bdb12e3b262958, 0xa07377610e3ee7d6, 0x101b70dd04be642a,
    0xc9b3423e4db90d10, 0x7ce8ad03894cb07a, 0xc81440c79fdebe59, 0x1227872231f192f1,
    0xd45859f45166305c, 0xcccc00c0accf2ac8, 0x174951fe6d338fb3, 0x1d01d734b7090603,
    0xa811b296f3e7b10e, 0xe897fb723a9fad08, 0x4caa991e54fc7eea, 0x0e593e9c0177976f,
    0xcb37743b6fc60c16, 0x4cb3bd9dcf14a8bb, 0x0ff768205f9e161a, 0x2fe9b7637f54d706,
    0x1c717eb603a6d9c2, 0x2905e5faa7e8efdd, 0x3739a45057302214, 0x26ac179b67db2c39,
    0x87947223ae5108ad, 0xe5e39942296127fd, 0x8a351dd786dd7a1d, 0x236d13393ef85cc4,
    0xd5697b82714a171a, 0x4fc7828cb0bcf3b5, 0xefb7803e3284690f, 0x2e26f19972ff8bed,
    0x0e58cdf31a77ceea, 0x1998843693e2c232, 0x4fb0a465c4221742, 0x07f4790a30254f65,
    0xca0dab8d45f8d031, 0x6b7f6fd433fd2ed3, 0xb903db7df15187e6, 0x16adbd595b9959b8,
    0x75a3172a4f33c75a, 0xa6ac1b7a169ffe15, 0xe3b49e50ad3889a7, 0x1341399558f697e9,
    0xbca20caacfbf3bf4, 0x0d8e05b8c3b7ff6f, 0x14e1d01b984f863c, 0x02c8e714ec99e387,
    0x35dec7fc58ba6176, 0xdb417406c567aa6c, 0x5eb5b52fe2c26355, 0x0aeb4122ca96285c,
    0x87947223ae5108ad, 0xe5e39942296127fd, 0x8a351dd786dd7a1d, 0x236d13393ef85cc4,
    0x8f3b28ded5a75604, 0xbde602e45c6dac69, 0xc4664cdc75cd8d75, 0x24f5e61cac001b78,
    0x7730b03663361f1d, 0x22f433672964d2ee, 0xdaefdee4d4f1fecb, 0x158dab8b85f4412f,
    0x3cd26539ab12a213, 0xf2152a9f1eded11c, 0x032c8e6876957968, 0x210a7fd894e483be,
    0xf70bb26485b813ed, 0x8e02fb15346322b8, 0x2e022c22e620afb8, 0x27dd83e178817fe2,
    0xbf38604ce4e23e70, 0xfa4a8840defdbf2b, 0x01f111dab969ee5d, 0x28b60c3bcdd4693b,
    0x8a3da73cd7b513de, 0x9925215ca5d8e7f2, 0x07676f03c411a29c, 0x05c56f683ea2d1d5,
    0x87947223ae5108ad, 0xe5e39942296127fd, 0x8a351dd786dd7a1d, 0x236d13393ef85cc4,
    0x4fbe537e270c308b, 0xc4580869163f287c, 0x1d000c2209646780, 0x1ef913d33b18f5ca,
    0xc3c76d938d12afcb, 0x588551a79bfeb15f, 0x2dcdeecd45416aaa, 0x2f77767437b92627,
    0x303370f00209ed21, 0x0c8f21f966ad57ba, 0x0f6fdd909051708b, 0x2da62c50f92d8dcc,
    0x27c581c495ef159f, 0x629e1c699a7c27de, 0x8424af23862f95eb, 0x118c1924b687d526,
    0x842fb988980133c4, 0x89de9a559584b9df, 0x6abc8e1854d3f294, 0x1c20f20b601f89d6,
    0xc565caa019147772, 0xba9da58fe15d8a07, 0x6a00f6c89217183b, 0x19078ba50370eef7,
    0x87947223ae5108ad, 0xe5e39942296127fd, 0x8a351dd786dd7a1d, 0x236d13393ef85cc4,
    0x3bac5b3c766c5043, 0xd11a587b51581e76, 0xb71f734d1f9023cd, 0x090d697c32be00d8,
    0xf3662b3c2bdcf9e5, 0x34ddceac4385e702, 0x8b67f7d85be9603f, 0x28309a912afc8684,
    0x7051400f302dc3bc, 0x7053603e181261d0, 0x3a6b92996445318f, 0x0b100f36ac254ea6,
    0x55ef9d964b06c93e, 0x7e874189ca4d4d25, 0x93199a2166736c0c, 0x1931597f6dfad681,
    0x2fa992effa833800, 0x9fc3c0a64709cbfc, 0x4ec5c6c50e1b2913, 0x0b26976995fcdb35,
    0x94d68f7380bca019, 0xeaa8c6dfa6c6130f, 0x6e0ece7b8537905f, 0x2dd919c2edc302e5,
    0x87947223ae5108ad, 0xe5e39942296127fd, 0x8a351dd786dd7a1d, 0x236d13393ef85cc4,
    0xf863db3fce5eeb29, 0x7cefaac1ab05ce89, 0xee497f6274fda5e0, 0x278b0231cff85bde,
];

/// Sparse partial-round coefficients for state width 4, elements 128 to 255.
pub const T4_S_1: [u64; 512] = [
    0x30e3a80b1a5bb506, 0x6fa6b751adde822d, 0x4cf0d0fb5e6bdee9, 0x09ee1dcae79dc90e,
    0x2b274328fd04afbd, 0xc965265fce93f976, 0xdf8b9e03a12fc37b, 0x1769f50fb961ba50,
    0x78a94aaa4edbdeee, 0x40510f517b2eedb6, 0x30b0ef58d708d077, 0x20a99da43235a2bb,
    0x7bf8b5dba2b8b7a9, 0x1924c7a85f48a33e, 0x5d84cd91c342f70e, 0x11b7181ec0f9a148,
    0x81dff75cc02e937a, 0x4818a7ce156d2c7e, 0xb31107f29dc6a7bf, 0x23453eb1a5e44e28,
    0x87947223ae5108ad, 0xe5e39942296127fd, 0x8a351dd786dd7a1d, 0x236d13393ef85cc4,
    0xa4b91a49fc762880, 0xc8e3d1ec2942632f, 0x028d68130f5533d6, 0x2abc91241e3275e2,
    0x0c31b249d962f86e, 0x602afd8440ada005, 0xa0b5a35ebb3329f4, 0x21653a887bf627cb,
    0x458252d7ee478def, 0xdf2ccd813bf1f9bc, 0xafc518b16135ca00, 0x2ffee525440cb92e,
    0xe1817344d82137d5, 0x35c212a8af5c5b6c, 0xde9a91058ffb340e, 0x0104bce734fb0322,
    0x75ed5a439b91c12a, 0x8b757426784cc539, 0x64455a298fe597ce, 0x12db34f34145195e,
    0x8214be04aef88b1c, 0x633308428e4e8537, 0x911748f5593bbeaf, 0x13a9a61ca0008c1b,
    0x87947223ae5108ad, 0xe5e39942296127fd, 0x8a351dd786dd7a1d, 0x236d13393ef85cc4,
    0x2531d94792d4707a, 0xe8d1d8ec79472f6f, 0xd51eb001357d8bfc, 0x14ade7cef88a7726,
    0x35cb9c54d0a077a6, 0x4ab75b4eb9fcab42, 0xe96835346b85a3e9, 0x24baee921a2b827f,
    0xa5d1fc4138e8782b, 0x0c653beca2fa7317, 0x9e2ca9458de6d3aa, 0x04dfb441b179922b,
    0x101d487f3c679ee4, 0x7ea2302291d3ab11, 0x0f58fefdefc09e44, 0x2efdb84c3c6faceb,
    0x38055431655bbba5, 0xab3796ab597ed63d, 0x0da9d720f25df6e7, 0x24d861650389f03a,
    0x8042c2d152aac2ae, 0xc7b691c30c269527, 0x15577697e90e891f, 0x1f8b2609f6999f6b,
    0x87947223ae5108ad, 0xe5e39942296127fd, 0x8a351dd786dd7a1d, 0x236d13393ef85cc4,
    0xbdb1a54d11cd4db6, 0xf21033baaab86a9f, 0x752e2e3779757e5d, 0x242fed5519f01070,
    0x679faf689d69e1a9, 0xa2b04fb0b239c38b, 0xfd8864de5068b943, 0x06dff8e392f51302,
    0x2cb1a5b7fd440fbc, 0x6502d2b601f74fcf, 0xda0f7215bd9404f4, 0x1ce5db5cd27794bb,
    0x701f0d5efb32a80a, 0xb4a337b92728f66f, 0xb8f48309cd6e783c, 0x16aea838ec8bc6e8,
    0xfbd8198209d4ea95, 0x2ef1e46b4f3747f3, 0x2be5a125bfbd5e95, 0x1fd21a8ff13f0ef1,
    0x6bf6d072d2500df6, 0x5a6313a1f37564e3, 0x8076854954d977c3, 0x0125158b21d67761,
    0x87947223ae5108ad, 0xe5e39942296127fd, 0x8a351dd786dd7a1d, 0x236d13393ef85cc4,
    0x89f72793f5d4a18e, 0x3c38a922cc6bcc16, 0x879d93d36e9312bb, 0x2bb8e29cb323e3e2,
    0x2701feeebf4e826a, 0x1603fc2cf0ef3282, 0xe7aff1bce2bc54ad, 0x0d0e2ecbd08e247a,
    0x4fe4716a47699470, 0x0cf23f3cfeef3c8a, 0x3f39d0d87bbb35a9, 0x2e7df0f7b842490b,
    0x6839c93c10b37837, 0xb857c7489920644f, 0x82ecb1a08acb5c0b, 0x1d9dd609a2944aa7,
    0xcda8b4d538752109, 0x608c32759020f082, 0xb23aa243904a0290, 0x11ad269471d4b36f,
    0xde86e4eb91595bea, 0x89f6def774c3f988, 0x2e205c3f3fd187bf, 0x2d2f546cbe60a982,
    0x87947223ae5108ad, 0xe5e39942296127fd, 0x8a351dd786dd7a1d, 0x236d13393ef85cc4,
    0xe4c1f4f1dcf068d0, 0xea034a51e3bd1198, 0xbcf29f2ddb54c6d9, 0x28113fd3a8d3b95e,
    0x4bb78f803b90025b, 0x836c131dcec2472f, 0x4c202ba1c069ed4d, 0x114ed46d49b389b1,
    0xa5a26ed35c0d1424, 0x6ba21db8a3f316ac, 0x70e38b75cbc97b31, 0x14a217bf8737fb35,
    0x02ff674c22b009d0, 0x33b8adbb9e3aec97, 0x78209561d9300582, 0x16c9e7a58ddf1419,
    0x797318e004632793, 0x92e3dbc2a5152df9, 0x402906d75be419cf, 0x1388b78b9ec0242e,
    0x27513b1f7a294b07, 0xfed0d30fca28ef79, 0x87e3c666a8f7626c, 0x2a459318d3f7156d,
    0x87947223ae5108ad, 0xe5e39942296127fd, 0x8a351dd786dd7a1d, 0x236d13393ef85cc4,
    0xc94cb310e8e821cb, 0xbe2f479be397de83, 0x92a69d107bb7e6e7, 0x1f3df3ca1c4b8547,
    0x9de2c888004b41e9, 0xb38a82fdf3cee59d, 0x0f1f9017028e3098, 0x2869447a669cafc2,
    0xd777c10db4796ff7, 0x4eaa1a6d5d70385e, 0xef15c7baaef8bd2a, 0x25eccbdcaf0a67d5,
    0xaea9b7b4be3534a5, 0xa177cdb778ead13b, 0x6351f1be0a3211c0, 0x24c26970e999f27e,
    0x5f0f02409d83433b, 0x3a7d4ae8d52d4fb7, 0xf0ce9d635e26ba01, 0x0731afc922ad48a9,
    0xf1c10974e66f879d, 0xcedc63a90b01b7b5, 0xc51927ad1061d0c1, 0x217044abaa3c9ab6,
    0x87947223ae5108ad, 0xe5e39942296127fd, 0x8a351dd786dd7a1d, 0x236d13393ef85cc4,
    0xce724706b5c20b0e, 0xbb1d2167a417912e, 0xb07c08691c2eddb1, 0x26cfa9ff210943f6,
    0x839c4474037e049c, 0x4713b196e36a7e9f, 0x630a2ca7c4098090, 0x0a5509b4fa5bc8be,
    0x19392f0d291c3475, 0xc50b000383faff54, 0xd132c2edffc7a46e, 0x1c4dc788b6131f9d,
    0x0968e19ee2601053, 0x311abd0bfe541fb3, 0x994ce37edf2c3cd5, 0x150bdab59767a62d,
    0x86cf9e392aca0d31, 0xc1581f251f9a7b7d, 0x4cf25a068932d447, 0x25393627a593730f,
    0xd8a0f80d8778a6ae, 0x509491e7109db65b, 0xc458ca7625dd8b18, 0x10598af7a84cfdb4,
    0x87947223ae5108ad, 0xe5e39942296127fd, 0x8a351dd786dd7a1d, 0x236d13393ef85cc4,
    0x38d0f916d35ec9d0, 0x6aef1bb6aef0baec, 0x95d5dba77bfb57ba, 0x1fd5ba5922d71097,
    0xa679d4efaea6f218, 0x52eed2629ddb59e6, 0x85b1f6ded27c8545, 0x0439026e268ca0fa,
    0xf053faba3f06286e, 0x040f7f360399dab7, 0xb9f9a17e9a49d6f0, 0x1d5d47eb657ce510,
    0x227305a550f42697, 0x1996f46dd9df0fbb, 0x51062ea271b40294, 0x005cf07dcd831c1c,
    0xc76adc04ce92e029, 0xf38db66b2257f4ba, 0xf998bf9e1fc69fed, 0x24ef1615afe18b0f,
    0xb1b8fc9328087c2c, 0x4b7778bda9d7d514, 0x62425a7236c23e8f, 0x0ce1da26cb978281,
    0x87947223ae5108ad, 0xe5e39942296127fd, 0x8a351dd786dd7a1d, 0x236d13393ef85cc4,
    0x18a4280437e9e9b8, 0x9e67f0e816dc90ff, 0xca01503bc20232a4, 0x1355e415b0db4001,
    0x6b056b48473cb451, 0x35dbee3fbf8f3d1d, 0x76da65f312e409d6, 0x011fc9669cbe3bf1,
    0x7c308f023e71d4c5, 0x6cddd2838ec6a74b, 0x7b4c42df0191d2a4, 0x1d6c191023678955,
    0xa7d377541b19f57f, 0xd6c2d55033f7bece, 0xd7c9c97030c1b420, 0x1626f4d2cc7f2d46,
    0xb3e235ddc2982115, 0x786fc88bfcb82570, 0x0d4bae4bf8dde436, 0x210c4bb43d712b40,
    0xca1ba9e1a0e13825, 0x0ac4b0041afe80f6, 0xea915c1fdb460f3a, 0x213fd23b04ea9e58,
    0x87947223ae5108ad, 0xe5e39942296127fd, 0x8a351dd786dd7a1d, 0x236d13393ef85cc4,
    0x31c445046bb9a80e, 0xb87725c00f72d27a, 0x72ac009258a1ad98, 0x2ea430efe8ee1f2c,
    0x9d73c75136bd0272, 0x0d35aeda598fa506, 0x32b646584e76fb7b, 0x2d694e23e1b3f6b6,
    0xf33787883c1a0db0, 0x21cdbf4cc6e03b8b, 0xfbb3635776e0894d, 0x2ed754f34a22fe04,
    0x4b893f4afeaa41ae, 0xfbf16899400e6955, 0xbe3bd037f4df62f7, 0x0f23e64e2b59d750,
    0xe490cc524a2bb2b0, 0x36362d198e44c204, 0x80ef82b2a3cb9bcc, 0x1cd301878d6d7784,
    0x6f95a01a5a207f04, 0xbbd68de537e32c46, 0x35a71d2f8342bf7c, 0x276d797b67c8b3d9,
    0x87947223ae5108ad, 0xe5e39942296127fd, 0x8a351dd786dd7a1d, 0x236d13393ef85cc4,
    0xd63a1e02b84aea6b, 0x188351be2b1b26b6, 0xdfe00c24c7fbd0f4, 0x016e8ab5ced34e81,
    0x2d9f33134f60c7a7, 0x10c8dc0a4fd6ebe8, 0x6ec2d5852b5439f8, 0x1caf3b10ac581465,
    0xc28212ec7edb634e, 0x1f78fa1998cc3d92, 0x372c547e9d6c354c, 0x225f97bdaeb6a565,
    0x6c827d600b7a7358, 0x15a1ba244c13b018, 0x3adf239a36894495, 0x2d828acba9e58e0f,
    0x696062ab8cb9d39b, 0x9cf79b0ea1affe03, 0x290cb839bf62c9a4, 0x1f9da4066a62e0cf,
    0x495776c2b1b6816c, 0x2b405258c4b9b177, 0x343b41e59330666d, 0x240706e2b81b5b65,
    0x87947223ae5108ad, 0xe5e39942296127fd, 0x8a351dd786dd7a1d, 0x236d13393ef85cc4,
    0x17044859fef9618d, 0xb15b18c6e9d009b7, 0xe22d66c5b2963ac6, 0x2d0f43029750f58b,
    0xda3898886aa3e9bb, 0x882ab82dbd3e790c, 0xc8aa0f5c08024beb, 0x14237392b60352f6,
    0x13587ee3f194d260, 0xcfb7db5cb431fb98, 0xe1f94c98662b6339, 0x0c8f3b03657beee6,
    0x4c2fb4efad1ef118, 0x490e55633dc0ba57, 0x56513482566afcbf, 0x18700b515de19b32,
    0x40dca47e6a326e26, 0x00217bdbea74ff13, 0xd1e18721a96d1e8b, 0x1c3b0a6645d002a9,
    0x005a904c08bfd014, 0xcecc1ea431849612, 0x2fa98aa90bbd65e2, 0x2979c4d21f80db61,
    0x87947223ae5108ad, 0xe5e39942296127fd, 0x8a351dd786dd7a1d, 0x236d13393ef85cc4,
    0x01991820ce3af97f, 0xf57d7cca62caa260, 0x9be062b07c05dd3d, 0x24509dfe35747030,
    0x3ce4798bcf9357e2, 0x60673046c86deb33, 0x8a0e53e25dacd92c, 0x2bedda6eaf8901b7,
    0xcce3977ccb273404, 0x7f6e0ff13ef83152, 0xa53ac4066d491006, 0x1f1d984e06825a3d,
    0xf4a7571af810609e, 0x2dc52bd2e53d3ef2, 0x44d168802c352a7e, 0x01f592946ac103f2,
    0x85e8dd5bce060ff9, 0xe0db7ca6283a1765, 0xac1e3d5295126f8e, 0x1a975c6688744220,
    0x13a2d6d33596a6f6, 0x6ffe0329195b8ff7, 0x7737e9dfdccd57fe, 0x1a78319fb62d9929,
    0x87947223ae5108ad, 0xe5e39942296127fd, 0x8a351dd786dd7a1d, 0x236d13393ef85cc4,
    0x8fa99c67b5977d11, 0xc62e86ca7d872dae, 0xbd4498be87f445b3, 0x02fb4c2f41520052,
    0x3084aea490fbf3fa, 0x7f2f23a3a8fee14f, 0x0f2228d505e54dbb, 0x03162b367e9f3418,
    0x702d37f36f79114e, 0x13943abf3e49c55a, 0x63e7c6ecf96dc6bc, 0x0da5cb94995f6687,
    0x81ad1bec1bd701b9, 0xd82600f35598ea2f, 0xfb7b83e880e8cc23, 0x2575cdf1a61befe9,
    0xb3d26a99ab5a35ae, 0xf2fb24e315f400dc, 0x89a8fd0ad274021a, 0x1f83d6c20646a7e0,
    0xaf5169a5079fdb42, 0x49e47b432767b0cb, 0x580219c9d6987812, 0x2c774cf487f79664,
    0x87947223ae5108ad, 0xe5e39942296127fd, 0x8a351dd786dd7a1d, 0x236d13393ef85cc4,
    0x18e647e1be8d9888, 0xcc53e99390a8de90, 0x04e70c2c5125ed51, 0x203c1b59256ff5c0,
    0x906a1b5f764963c1, 0xcbabd1efc509b31d, 0x279b39b9319fa54c, 0x27abfb2e0894c5b4,
    0x829c2e7e69efbf0b, 0x299c821a4766a78c, 0xf84894b6525b3fec, 0x2fea2fd0f35fffa4,
    0x9928179373a66fba, 0x816fef09dcaea75c, 0xf2e96698b96fd545, 0x2451d54dc48cb608,
    0x4adb43f94b7a0e9a, 0x9bebc5510cb40959, 0xb7c1f915dd2b0e43, 0x17c5d4cbf713d33e,
    0x008b37c7f32d469c, 0xb4226bb09c10cd68, 0xc46c1a8f719063dd, 0x0279fbf4382e4b2b,
    0x87947223ae5108ad, 0xe5e39942296127fd, 0x8a351dd786dd7a1d, 0x236d13393ef85cc4,
    0x90bb9cb600652321, 0xd4188dfe89970dd7, 0xd3d8dc88c8689704, 0x0eb7c1194600e6ce,
    0x15ec501fcb166ba3, 0x3d85046b1c4ca977, 0xc589b14e8493dc74, 0x0a0e776c12cd108c,
    0xf7dc626e4a732948, 0xe791dc32d3a6f872, 0xe5774f64f62d0bce, 0x1a8a8487cb8a60bc,
    0xe94e5e955aa09ca0, 0x8878939c82852921, 0xbce8b58c467a05bb, 0x16f103fdba708db2,
    0x3f1a98900376325b, 0x389b493f98c8d347, 0x2833550d82f749d1, 0x27a57324ff819327,
    0xe758844070c04860, 0x76c82cc203530d82, 0xa60d1a5319aab700, 0x26e4040378441fe8,
    0x87947223ae5108ad, 0xe5e39942296127fd, 0x8a351dd786dd7a1d, 0x236d13393ef85cc4,
    0xa6bc56d888dfa9c1, 0x09c4539fa5c3b79e, 0xfa17d73eae87534f, 0x071846aa99eae694,
    0x17730656217faa2e, 0x83555587a928fef4, 0x2ad571834bc835c0, 0x0cf75a0326b8ca3e,
    0x64b3081340c4f11b, 0xd4802940f63a14fe, 0x1bfef8a2dae36f71, 0x1b80702e894d7482,
    0x9ff7f08e3f07ce71, 0x05342ab49677037f, 0x27ab098ec9f454d2, 0x2cc49fb1ce9198b9,
    0x95a328135888e924, 0xd98d8b6feab3e459, 0x566facbf770a14ba, 0x1a6e74bef4b0a5b3,
    0xbc1893bdb2e7c7c9, 0xe978061ba53657e9, 0x2b2c9b4710ca04f4, 0x2ef1e0f0bbff9131,
    0x87947223ae5108ad, 0xe5e39942296127fd, 0x8a351dd786dd7a1d, 0x236d13393ef85cc4,
    0x4d47ee5a0c288fac, 0x3107373ba413ecba, 0x1081da11a13c7abf, 0x0bb77a7951190968,
    0x44c50d099053bfa5, 0x85b7fe860e7eed29, 0x101d387c1b8cde6b, 0x23d8b2e6869d7d05,
    0x475e3de290616ae9, 0x1fa85c4c15b72459, 0xa3830c500d1c0e06, 0x3023a8bf03a803ed,
];

/// Sparse partial-round coefficients for state width 4, elements 256 to 383.
pub const T4_S_2: [u64; 512] = [
    0xf47969f1a44e20eb, 0x8767161fc1a24d25, 0x96ed3630098ff701, 0x2b27c41a943be0d3,
    0xddf6f108f1103e13, 0x9582a3a6c5988254, 0x61290c8590e2ff67, 0x2a73bceed9ee2a72,
    0x5b6f132fd7733bc2, 0xe08ef6a697acf7e5, 0x206ef023b59884fa, 0x2579c47b76db59c6,
    0x87947223ae5108ad, 0xe5e39942296127fd, 0x8a351dd786dd7a1d, 0x236d13393ef85cc4,
    0x609572d7d0acb900, 0x604cf59d5bf5bf24, 0xf4b0a6f9c432e2c0, 0x2a5993c9c2a80be0,
    0x50d7faf0f6a22804, 0x381a393feca3c044, 0x5c7bf760b355e0fd, 0x10faea103aa36e7d,
    0x5dc04a240d8f47f1, 0xef6123ad5174f01d, 0x2c3e6d68fdd79e8b, 0x2e98e92bc9904ca9,
    0xa1028e0b7a434428, 0x069f2db6bcedcda8, 0x9f290239eb94fe86, 0x0119937bb5d5d902,
    0x4e9609e97f070cf2, 0xf2a08f52e7bc9008, 0xc8ec8c735b73e07a, 0x007c67a48f20850f,
    0x6438aa2663cc35ee, 0x0c5d39d58f6599a5, 0x993fdc9ece5fadf0, 0x2da7855de0bdab6e,
    0x87947223ae5108ad, 0xe5e39942296127fd, 0x8a351dd786dd7a1d, 0x236d13393ef85cc4,
    0xbb20a0991aadc46b, 0xa5e410a7e92d23db, 0x3a2aec1bd8a434f2, 0x1a69a3840762376c,
    0xa90276b1dfa4bf15, 0x08fb856d68b9c0ac, 0xc3627a25345c8795, 0x057e27ad9218a311,
    0xe9ada26718881832, 0xac2b69ccf33f3802, 0xf3b26689dc5f62b8, 0x14307851c6b079c4,
    0x3d5d4889ce304271, 0x3b78f8ce1e3c3918, 0xe681dd310fe11270, 0x26c71cfb532662f6,
    0x5e5bbd761e6d82aa, 0x90e82cf47bb87e3d, 0x45bc094d8a53f21d, 0x294cb0c139a1a5a3,
    0x654ddb7fec0be900, 0xe09c4661a5565646, 0xf10a2f61953a4c77, 0x084133bb35d1cee7,
    0x87947223ae5108ad, 0xe5e39942296127fd, 0x8a351dd786dd7a1d, 0x236d13393ef85cc4,
    0x2298b302c875bc1a, 0x77b590b7d14d3e3d, 0x087bc575b795cf7b, 0x1807d1d910cf5420,
    0x62c8136c02c57e9a, 0x12e112bcd91b4f39, 0x8bfa1198116229dc, 0x1df001fd3c126235,
    0x95ecea4842f9ff07, 0x2df4e737c63f61f6, 0xf74d14a89099f894, 0x2b424b88ddb0ae2f,
    0x6203c7f97203791a, 0x0a353710153cadd9, 0x0885f11ff9cb213c, 0x189b086bfbbb9da3,
    0x8d1c3ac1672e2ec9, 0xd43a3083fe658bc8, 0x92809c07a387b1da, 0x1bd472ab81eb7d6c,
    0x4424107a9929bf8f, 0xcb0e4e1f14cfe572, 0x8f8b1d100459f537, 0x2bcb32de32d02f4b,
    0x87947223ae5108ad, 0xe5e39942296127fd, 0x8a351dd786dd7a1d, 0x236d13393ef85cc4,
    0xa2ab616f0516195e, 0x3773209abb5f341c, 0x52d54cdeaf8ce6f2, 0x0cfc7baed4497a22,
    0xeab04260eb90b128, 0x96b441839b79e54f, 0xc886dd504a2ec58f, 0x1cbfb6629ded2640,
    0xd20f350af8752f2b, 0xdae326abff1e7feb, 0x55549ac304fb205c, 0x00b3e19811df2edf,
    0xa096db675ca0dfcf, 0x3eb5a195ac1a26d8, 0x4124bb66995e5c66, 0x17e85c4c6fe80853,
    0xe8d2654c342622dd, 0xf36e97308369e304, 0xdc708ff87cee0315, 0x031cdebefacdf2b2,
    0xd073cadbe4f665b2, 0x8d23c279d442e7bb, 0xe1ff7c0a0165c4cb, 0x17c33efac12fd569,
    0x87947223ae5108ad, 0xe5e39942296127fd, 0x8a351dd786dd7a1d, 0x236d13393ef85cc4,
    0xebd33c39aecb895c, 0x4126345cdafbf547, 0x4d5822fba6898576, 0x0866a0d2140ed385,
    0xab77bb09ced39950, 0x4d4cb655617c0cfa, 0xc347ee4037d08f91, 0x02bbd1e9f3114413,
    0xbd2c4d97e7bc7847, 0x2ed65f87880f675c, 0x4e048c459479d562, 0x1ad0d5f7480a78dd,
    0xa355b2c9f3453b74, 0x3efa6d698c9d3b1b, 0x0306cde87ea47cab, 0x1b88066e99b993f7,
    0x80d0b821aad7b9f1, 0x5a51fc30c799500e, 0x4ed741b0dc76e009, 0x25fa0cd0dea157ff,
    0x6d84ad440fd0f99a, 0x79a4d9dc80268cb9, 0x7a6ce8abcbd4bdd9, 0x208e0d0378f2c7d8,
    0x87947223ae5108ad, 0xe5e39942296127fd, 0x8a351dd786dd7a1d, 0x236d13393ef85cc4,
    0xbc46d564eb8b09da, 0x6558f57a0027e6dd, 0x102f8bfa6f1c6472, 0x0bcb27a9e590ba76,
    0x64a0c91a4e08dd61, 0x9754dc7cd48144f9, 0x9a75b3f8fd1bfe1d, 0x0ce91923c5196084,
    0x69d2a1e774b4245d, 0xd618def2133ee2f8, 0x6b1e3c0f3604f0c7, 0x1fac92c295c763fe,
    0x32adac070a82a109, 0xe5b8bd1037b4ee53, 0xd471e88fc2cccbf3, 0x087968a25cdbb96c,
    0xf760773b5de0e624, 0x5d12ace1ff5e3626, 0xd6fdd5c5def364a4, 0x0cc8d9f53ff98eed,
    0x02136fcd080f4e6a, 0x5e1c4a9f5e2c5396, 0xe985d61390a351ca, 0x2b95310fe6307070,
    0x87947223ae5108ad, 0xe5e39942296127fd, 0x8a351dd786dd7a1d, 0x236d13393ef85cc4,
    0x82cf609d4559b2e8, 0x50e52258eefa5983, 0xeb73206239493c91, 0x28c0a6ccd9587d41,
    0xce2cafa9462491d9, 0x0af0740ca973d6ac, 0x77275b235bcccbf3, 0x165c6c313faa07be,
    0x6759612cb73259e6, 0x279be0377669908d, 0x253e926dff5f95b4, 0x0cdeb047d8e50b00,
    0x285485abbf9db018, 0x7695d62d6362ef27, 0x572c2c9b7535776b, 0x10140d5f85f2f329,
    0xe26364dd894b1468, 0xc228e926c9ee26f5, 0xdb07c8b1c3bc1461, 0x09501340c196da04,
    0x7982458698c93ac0, 0x74eb03f7251d7156, 0xfc19f6431d53035a, 0x0f607855b7f42530,
    0x87947223ae5108ad, 0xe5e39942296127fd, 0x8a351dd786dd7a1d, 0x236d13393ef85cc4,
    0xc7c792dd25a47046, 0x6b67e30f2474bf2c, 0x44cf8a26522391ec, 0x255be79d8de4168c,
    0x76dfc5dd15eaec90, 0xdcd4d9841c4e8f1e, 0x10b586800234267a, 0x1ecb792391cc7467,
    0x21f3b6025b65d016, 0xf9e58d0156f0364b, 0x205a19091cb044a8, 0x292470307f3a20d0,
    0x2acda8353a47ecee, 0x245f0498e71043af, 0x89843e884a06ba72, 0x0c3d7b0383d13774,
    0xf531d7d5d1ad625c, 0x8648cdc876c7c6e2, 0xe5f87fb14ed53619, 0x0c610cb1971aaa4a,
    0x8a07bb249711d7e2, 0xf44d441d2d459002, 0x7c5897960fe7f22a, 0x1c237dcaf124be15,
    0x87947223ae5108ad, 0xe5e39942296127fd, 0x8a351dd786dd7a1d, 0x236d13393ef85cc4,
    0x0750a9a102c05e3b, 0x347c7de946a3cfd0, 0x47a1d39ad6027a9f, 0x2a5e583e4003e7e7,
    0x306c4736510675e9, 0xecb1bcddb9bab42b, 0x1a960804ecdb0442, 0x16ccec4b4960d233,
    0x731851dd59b1365f, 0x2112f9e457e3a51d, 0xdb861c291c1a1f52, 0x2d0db3092b03a54b,
    0x2222c5ae19e2adbd, 0x3e14ae22f1e29403, 0xb1ae192294dd62af, 0x16f1469935ef074a,
    0x9b9ebe8148cc0878, 0x5ce9ae081858ad62, 0x2f2539ba2f8d1fe6, 0x067c4106d011aaf5,
    0x131b662f3d5f34a3, 0xfacc1c96356c84e8, 0x7344b8296ea4a251, 0x12c6eaadcc69ac3b,
    0x87947223ae5108ad, 0xe5e39942296127fd, 0x8a351dd786dd7a1d, 0x236d13393ef85cc4,
    0x6665a1c787ed6049, 0x4a4eae1e850d58c0, 0x495cdaaaf18733aa, 0x2ad9831069e1f113,
    0xa71737a036628f6c, 0x5eca0ac9cee84927, 0x9c4022b9520d707e, 0x1a6d2b5f928d9f0a,
    0x86a6de00e0952945, 0xa46bcd207c174619, 0x6bfe712909a03c69, 0x1d92d368ae1f4225,
    0x2107ab377784faaf, 0xb50c622a28429d2b, 0xe64daef032a28251, 0x10ad1d35f6f8f499,
    0x7df4f1a798cf6375, 0xf7c3143eda0eaa25, 0x0fa9b2b7723479ec, 0x150225afc95fcb45,
    0xbedbe7205eddb980, 0x5534ebcf6df7b1d9, 0x0955fd30c8cfe712, 0x13c542f46f245c79,
    0x87947223ae5108ad, 0xe5e39942296127fd, 0x8a351dd786dd7a1d, 0x236d13393ef85cc4,
    0x30b63cbb9134a368, 0xe572a077ed0f8f97, 0x5b05649b48c70089, 0x2fea3116266bd300,
    0xe71129e621842af6, 0xcd462c40b04d0c90, 0x2b2a36846030f42f, 0x1bc4f0df44852b39,
    0x7ce0515827d19cfb, 0xabb6832b4dff9bde, 0x95d0c4bcdb9d915d, 0x083b244ee2ab819a,
    0x11d4f398908c8917, 0x86fd707b01290a77, 0x496a9c696c067b30, 0x1fe91590b6942e9c,
    0xba82274d154268c0, 0x269b10506e8e4a74, 0x2b6ac74186070eda, 0x2e97a6382c9007fb,
    0xee94e0a80c8cc4ac, 0x600b5396567615c3, 0x4362f4b4f05c5ee9, 0x19d731e981d3dd37,
    0x87947223ae5108ad, 0xe5e39942296127fd, 0x8a351dd786dd7a1d, 0x236d13393ef85cc4,
    0x183a5039044fd000, 0x71b61e43318dc82a, 0x6aaece92e6c2cf78, 0x1299ec83503dcd0c,
    0x18c64a78188b85e1, 0x734497dc31f21599, 0x71b341d077246299, 0x27059db058fd253b,
    0xeb0c99afeae085d0, 0x181973f6347318fe, 0x0eb57f025076157a, 0x0f8c2dee7cdc8dc9,
    0xfa3f9166e827cfd6, 0x2c92e883006c3d44, 0x7cda3105ac23bcb1, 0x1053d862218c7ad8,
    0xb68b6990a4b71933, 0x461a4c7b40a12e89, 0xe95f8c4f59cb32bb, 0x1442ee0343b9bc2a,
    0x63879adf84a3472b, 0xef2a1e9b3babcb68, 0xfc2ed54fadf20555, 0x2ef147fa908e6186,
    0x87947223ae5108ad, 0xe5e39942296127fd, 0x8a351dd786dd7a1d, 0x236d13393ef85cc4,
    0xd8bc8efdc4c1ab53, 0x0b5bbd791acb93e2, 0x83f992f7347f68b5, 0x297d7f9fc303a0f5,
    0xadac573b81b16195, 0xebbdb7c98110e171, 0xc1c906a956e5aaf5, 0x2b4e8b40ce6c64ab,
    0xd9ec24bcdfccdcbc, 0x8f00b2aa9ffb1ad3, 0xbaa5d728d225ed81, 0x0316fe041d68e38c,
    0xc2b556a5456ae6c1, 0x35171e3cf88e1267, 0x159d73e0d94c0ebf, 0x168c57b725731fe3,
    0x7821d241b3efbd3e, 0xeaece83148a36eb5, 0x57b5ae5283432b4a, 0x090666d655622b37,
    0x0817569f48bd7bdf, 0xa29df3678768bae5, 0xd07143870286eca8, 0x02c91164e87fcb1b,
    0x87947223ae5108ad, 0xe5e39942296127fd, 0x8a351dd786dd7a1d, 0x236d13393ef85cc4,
    0xc4a4c98f05284b26, 0x50e69ecf241d8b68, 0x1c579bbe91467a29, 0x110f901d246c2e95,
    0x5c9a6f1f70334091, 0xb15721afb4a35f3e, 0x9b2861009d6007e8, 0x0484e7feefee9a45,
    0x72676a130aba8364, 0xe002506c2c207bf6, 0x5129595f0996c10c, 0x11300deae6b73e9e,
    0x6766b6a5e0524968, 0x18ce31bb60c75b9c, 0x5653a3cb0440d711, 0x0ec4bcec59f43f5b,
    0xa67c6bf71e1e71e6, 0xfbb9f38faaf70d13, 0x67fe38d8669207d9, 0x0efa65a66b38b034,
    0xe61f17c6ea5fb4a8, 0xf690cc5a22ffe36c, 0x11ee2ecabb971dd9, 0x27806883684a018d,
    0x87947223ae5108ad, 0xe5e39942296127fd, 0x8a351dd786dd7a1d, 0x236d13393ef85cc4,
    0xbd84d1baa891cd12, 0x280fff22f7a99e60, 0xe7bf019b18ce7a36, 0x0f4b7f229e28a7a9,
    0x1ff561b1ee3177b8, 0x5e00a9ae5221191a, 0xc222d418e017b7cc, 0x20b53ef54ebd25d7,
    0xf1302dc65ee059c2, 0xeaf0cc1fa1fddcac, 0x635520e21890e2e5, 0x14efc55a08da5f53,
    0x60baa818678ef374, 0xac8dedf2ed372531, 0x059fc4525bb4aacf, 0x1b701800b22e5765,
    0x7cbbcf686651c67f, 0xeddadd6fb1679c31, 0xb5bcb86acfdfc4bc, 0x118648d759ffd92f,
    0x03f7854519af15f0, 0xf5910909c58bb2eb, 0x415a0c2a6e8f4665, 0x02601544a6e67f78,
    0x87947223ae5108ad, 0xe5e39942296127fd, 0x8a351dd786dd7a1d, 0x236d13393ef85cc4,
    0x87db30a1798d0dcf, 0xacd350cbb87ff121, 0xb79fc0ef825d6ca2, 0x1bfdb6da2db944b4,
    0x7d16445f2d067cbb, 0xb1de0cb7ae0474b4, 0x6c6e3d0c5a7bc7b2, 0x0969ce62c18f96eb,
    0xfebc1c9b022b8215, 0xb997f3647874179c, 0xede120eeaabc5105, 0x13d54abe37dccf2e,
    0xd9b05b793a2643b3, 0xc0b6b6b8c2ae405c, 0x017cd6e2a577e959, 0x27b42d0a347af048,
    0x5c4bd17b1cf8d54f, 0x1d2cf1b97b7ebb83, 0x498d54d210c11bce, 0x2737758ec335fcb4,
    0x2380861f5b54ca46, 0xadef8f6e6d3846f4, 0xdc20d0579dba1866, 0x1f9696df0bb5e293,
    0x87947223ae5108ad, 0xe5e39942296127fd, 0x8a351dd786dd7a1d, 0x236d13393ef85cc4,
    0x10b0366938541d65, 0x2de3ae6cf2d5e23a, 0x424a48c9a2b4f51d, 0x2fa9dd289eab48f0,
    0x4b715c4d388d7709, 0xad5eecb5ad93e981, 0xebf1efccbcbbf72e, 0x0fc755141d556a5e,
    0x2d8ad02194843981, 0x5fa983ae80c412fb, 0x7c665090b20dc85c, 0x26127072286989c5,
    0x5e670add9ad636b3, 0x0b02de97a5746635, 0x25513a7d0ed1b43c, 0x229663addd9b99e2,
    0x51be01d4ef9062d2, 0x4e77c18834c6c20a, 0xa9dc81ca4f61a03f, 0x3011613dbd895a56,
    0xaa45a7c80e489c5b, 0x64804e51537d7d3b, 0x8e2a0d669ac14e84, 0x05598cd7707b2848,
    0x87947223ae5108ad, 0xe5e39942296127fd, 0x8a351dd786dd7a1d, 0x236d13393ef85cc4,
    0xa9fb3de2afa831e5, 0x2744ff2db0ea9533, 0x78d4a2bc67c5dd24, 0x16dc1f58a2e54f8f,
    0xd0a877777b8dd060, 0x9fcb0f40191b63a8, 0x60541523dd6b2c15, 0x2a274cc1ef7dd9e1,
    0x4aa6bb8fc2f4f863, 0xa82cd93b3dd94764, 0x09460ab369a100d5, 0x1e8f3078f2fd0b04,
    0xb9cba555123dac67, 0xca8dcb6e8f0c8758, 0xd4417e09a83dd467, 0x2ee81ae8b9bc0eb7,
    0xef2e9164b6fd2721, 0x1e93db6078be2d56, 0x6b02ba57173fe739, 0x0367cb4b603a227e,
];

/// Sparse partial-round coefficients for state width 4, elements 384 to 391.
pub const T4_S_3: [u64; 32] = [
    0x01bebfa4fbb640f3, 0x8eab799713ea537f, 0x1bd119191fe0d115, 0x184637a267f328df,
    0x87947223ae5108ad, 0xe5e39942296127fd, 0x8a351dd786dd7a1d, 0x236d13393ef85cc4,
    0x76fd379545d9ca08, 0xf083f1f5d4bed38b, 0x511b2f9fb3785dbd, 0x27649a3a1db5ba83,
    0x61c94a0f19973283, 0xd92a1d31262fe517, 0x7bd7ed5aecdffbca, 0x08f84f219781937a,
    0x027c00bc4160f989, 0x97df3e698f773cf3, 0x9f3527527ba97221, 0x14f65d95f7359b8f,
    0xf049bc970e841a0c, 0xfe9bc7fb1f70943f, 0xb525be259699ab28, 0x2a75a171563b807d,
    0xf366b3e521c4ed42, 0x497ad2eecbaa7e42, 0x592a52ca9cef820d, 0x2070679e798782ef,
    0xba8b3d30958e7677, 0x8ff0613fd79375f8, 0x2488540e41f783b6, 0x2f545e578202c973,
];

/// The mixing matrix for state width 4.
pub const T4_M: [u64; 64] = [
    0x87947223ae5108ad, 0xe5e39942296127fd, 0x8a351dd786dd7a1d, 0x236d13393ef85cc4,
    0xf049bc970e841a0c, 0xfe9bc7fb1f70943f, 0xb525be259699ab28, 0x2a75a171563b807d,
    0xf366b3e521c4ed42, 0x497ad2eecbaa7e42, 0x592a52ca9cef820d, 0x2070679e798782ef,
    0xba8b3d30958e7677, 0x8ff0613fd79375f8, 0x2488540e41f783b6, 0x2f545e578202c973,
    0x3cedc821b2a7ae19, 0x967f1dc58718e59e, 0xc4a9b194e10724eb, 0x277686494f7644bb,
    0x6f38ce4157b6770e, 0x08b4dd3e15ccc370, 0x78e2827d092e1ae8, 0x083abff5e10051f0,
    0xb3a2be979e2d7eab, 0x06ece318cd224ab6, 0xf800739a53da75d9, 0x2e18c8570d20bf5d,
    0x596a15623d01476e, 0xb8104c32ba4cd701, 0xbff7eefeae3faf4b, 0x23810bf82877fc19,
    0x84a4529e66b09c62, 0x5129c16479973b0a, 0x0b85618826a9b350, 0x023db68784e3f0cc,
    0x68a9ff8253a1eb6f, 0x24d5c4741eab8b75, 0x7dc49cfdbae303ad, 0x1a5ad71bbbecd8a9,
    0xfa283c6aa723b608, 0xf2e4386d3e5b9f38, 0x7f3367ce86f684f1, 0x0fa86f0f27e4d3dd,
    0x207ed58d2a34cdd6, 0x1c068ef930f10be2, 0xeeafc4944034cf32, 0x014fcd5eb0be6d5b,
    0x7b3a75646ff382c1, 0x8af08cdbd63017c5, 0xd50d663bae733f97, 0x1d359d245f286c12,
    0x790f725c5d84f0af, 0x945004a7bc2c59e8, 0x86772133640f02ce, 0x0d745fd00dd167fb,
    0x3f0c2491e0b403eb, 0x57035ee3da6b2ca8, 0x28168e4b14dbaeb6, 0x03f3e6fab791f166,
    0xbb661c25d20fb52a, 0x8ba4a8b627627cc2, 0xd835eae0823e377f, 0x00c15fc3a1d5733d,
];

/// The matrix applied before the partial rounds, for state width 4.
pub const T4_P: [u64; 64] = [
    0x87947223ae5108ad, 0xe5e39942296127fd, 0x8a351dd786dd7a1d, 0x236d13393ef85cc4,
    0x96bd6bd8d2989a74, 0x8c13aef87ee92e90, 0x6785ff39129c7f26, 0x02b257df708d2f3d,
    0xa21ff147c58b0a1b, 0xaea7ec1bb1f4e17e, 0x7ba74c0f2d80c5b0, 0x224a7cc70daf93a6,
    0x986ac7a4438b96c9, 0xb6970c4fbe9206a0, 0x8e66b11b59c98363, 0x18ce43c42faa5778,
    0x3cedc821b2a7ae19, 0x967f1dc58718e59e, 0xc4a9b194e10724eb, 0x277686494f7644bb,
    0x6ead3cde3d431897, 0xf4b35d3d0b6e57b2, 0xc74c3725e5b8be54, 0x27907df41fa277d8,
    0x4c01d5b105d44a5e, 0x1d43131fadbf8049, 0x5746d870fb211499, 0x1b7e85dfcfe013c4,
    0x2cc4da61d8bf9824, 0xea1b184e65eb2529, 0xb27440567676ac64, 0x2c1597f81dc951f0,
    0x84a4529e66b09c62, 0x5129c16479973b0a, 0x0b85618826a9b350, 0x023db68784e3f0cc,
    0xd7a75946997aed17, 0x8d1b21abc6d70277, 0x1f57096c9d21f5d4, 0x02460a032cf84ecd,
    0x4ab242d19be92806, 0x1777efac91903192, 0x8e5cb1ee490a768c, 0x0c7a2ae4396db183,
    0x2a6e052aa6f94288, 0x07ecfabcc8448950, 0xfc37eec7b1cb029c, 0x08c2147f957a152f,
    0x7b3a75646ff382c1, 0x8af08cdbd63017c5, 0xd50d663bae733f97, 0x1d359d245f286c12,
    0x67afdabeca0dc590, 0x8e60cf0511decb8b, 0xc4bcb4950dae4a0f, 0x2456b3c4841aabbc,
    0x3f7b961b7ed377c5, 0xd39fe27d02b794d5, 0xf92110d68941ce37, 0x1a2e45b92aba8f36,
    0xf1d92ba130fe5745, 0x4885ba5754f32aa1, 0xaf3a3bc6d0a6012d, 0x182d95b63ec720b3,
];

/// Round constants for state width 5.
pub const T5_C: [u64; 400] = [
    0x4f3c2bd81a6da891, 0xd889bb4ebd47c386, 0x7f53e29ccac98ed7, 0x0eb544fee2815dda,
    0xba733f28475128cb, 0xa197aeb12ea64713, 0xf02fdba7dd737fbc, 0x0554d736315b8662,
    0xf5087c58d5e8c2d4, 0x54907df0c0fb0035, 0xbcd748056307c377, 0x2f83b9df259b2b68,
    0x1915208f5aba9683, 0x61f15f8b41a75ef3, 0x2447ac83052451b4, 0x2ca70e2e8d7f39a1,
    0x4ec719cb83ecfea9, 0x994196f12ed22c5d, 0x91b04d7222271c94, 0x1cb5f9319be6a45e,
    0x851867e46e126fa3, 0x8c34dfcec769429c, 0x360d02e6e2e5d1b9, 0x0a9c0b1916a8e41d,
    0x252e4804a6390f6a, 0x45ebf9bdd9ebb60a, 0xe8d36e9d4d1edad2, 0x1dd6ba3731e49d21,
    0x80837d0d7da4e3e0, 0x0647107b808866a9, 0x1a11b7112abbdee3, 0x24ae2a67c3d521c1,
    0x66c8b2ee96781d70, 0x3ca9be16d2004970, 0xef12866af5a45eae, 0x0d20c9310b5c14d9,
    0x84b4a35430019445, 0x169993abed543c72, 0x5d400d763a66c4c6, 0x0e047c9821fe94d5,
    0x988ac207e10c81dd, 0xd335d09110157076, 0x48eff41d2ce79bfa, 0x29474ab799b1e139,
    0x722a20d79afbca93, 0x9b7f41e7aca47ea2, 0x81be3b74ab4c7078, 0x03899f139d0dc4b2,
    0x3b96ca273f71029d, 0x39951d5acb6b1bbf, 0x7a91c5f37af5e476, 0x1866624f761ab8dd,
    0x7ea06061240f3009, 0xcf6b34db6d9ee2af, 0xf09ad8541325a13a, 0x13c119f36718f7d5,
    0x7b5a1575dd867fd7, 0x9643cc8e93fa4448, 0x2b11f13c08890b73, 0x0e4a100815807740,
    0xc3876f37de4e7ad8, 0x9ada9e3002210ac9, 0x51b670dafe14cabd, 0x0ef505fd44ac10a2,
    0xa6fd238405720de5, 0xd1445b6b8129a5b9, 0x91c43d367470a5a5, 0x1d31e4e2a5978b74,
    0xc6af2c030fbeac39, 0x94ca5cb4421b5d1d, 0xb624d9d504524a96, 0x0a979ad5428d481c,
    0xf762ade36d6ab2a0, 0xeea9373f4995778b, 0x9ce3682f38aa291d, 0x0f7fccd2ec8bc6ed,
    0x53b153e9fec7bb80, 0xefe99c2ba99bd6ee, 0x5f7c078d9bf8706d, 0x2691b924dfa12300,
    0xdea7a9517463220b, 0xc464b0e4678add60, 0xe56b913bef3a80db, 0x02077df6510b4860,
    0x9ba61c58e2993e8c, 0x0a3dc21bafbfac1c, 0x49350ce2e0aa47d0, 0x29ee09d8af9d24ca,
    0xa733cea6f25bfaad, 0xe332aaced9f1a494, 0x6b9a01916624f3cd, 0x08b292c661d42750,
    0x87393a1da9a4cf90, 0x092c84abc72c90ad, 0xb22e4713edfbb050, 0x2583699ce536a757,
    0x12cffa19657b0b66, 0x5fd4148eb8110a0b, 0xd88999475374f6e2, 0x1e3f1b660223d65a,
    0x94cf62a9ad4c3448, 0x9b222f0ee8e02f31, 0x79131455461259e5, 0x20f3ecbb37c34aec,
    0xc85513b1776fbc64, 0x5696d8b9cf6210b1, 0xf87d553ba62dbda9, 0x0df4f5088e4444fb,
    0xa252c63bcbfc6833, 0xb2ffe361a807c589, 0x00a1cf4dd67dd664, 0x02b348effd4c9cef,
    0xfc84b556f26a86c7, 0x27c000fa96b1b462, 0x6cd8f20e82256f03, 0x1ba1e522fcb15367,
    0xbe9d3fa74419fe50, 0x6764ed3550aff80d, 0x144e964c37bbc576, 0x0294c44df8e68c96,
    0x59bc818c1d2636a1, 0x04c77dfe2194753c, 0x602ca040700498dc, 0x0313716eec6dcd8a,
    0x429a442e19e3ec61, 0x84d960bbafb90967, 0x2359f68225de9553, 0x287dec74696d663e,
    0x13f0f8f72c1946be, 0xdb4962c8204fec92, 0x311ba097cf365683, 0x25e42f72c6be0942,
    0xea6da70b6b475c91, 0x8639f081a94896f5, 0x768c242acd5399b0, 0x12b6881b96654fe1,
    0x70449bd9418afdb5, 0xef18118ed9498c82, 0x7d7be55c716cb243, 0x0dfc2b54546fd326,
    0xb99b2872b28eedf0, 0x5f36d04cdc73899a, 0x6ad4890fa029c27c, 0x27dd55fe0d5c0ff5,
    0x88adcbddd32f173f, 0x8b41ef8dcfccb381, 0x7a2ce59f587443ec, 0x0c60962711aef16e,
    0x6684b7e8b40d42d2, 0x6c28b585986b8111, 0x86e62fffe32bf5f1, 0x2edc09feb267c6b5,
    0xd4c4bcc9656d11e2, 0x622c90502137aa1c, 0xf295a19466d8d100, 0x0af8386859db252f,
    0x23e651a13a680550, 0x6c080b3ca4eda51a, 0x16abe382102a459e, 0x121f218392f73d4c,
    0x2913cb3019d56f8e, 0x75ef67d29405b5e0, 0x061f8c775c571ffc, 0x1ea38273f5d59e65,
    0x37742ac1556187fe, 0x8bfc3b0bf30b146f, 0xc0ac35b627e2f8f0, 0x09bd2349005699bc,
    0xf55f9404696c1433, 0x6a7f2132f89e91b7, 0x11aea22aaac4d44f, 0x091c505b1e92448c,
    0x799b0573a931a99f, 0x56d443ba14cda4bb, 0x490f7fcdd5e9f2d2, 0x0b316f1c29689d4f,
    0xf3aa75fdadf367e7, 0xd0e3f5359cfa55bd, 0x398188b81f99d2e2, 0x2049251919a8f3f4,
    0x0064188a4aac55bd, 0x899a105bf9e584af, 0x08814168e3e4cf7a, 0x1fe7f9eb67881019,
    0xe9b1c67c1ec1d570, 0x6d966d529c2d01b9, 0xb0acd630ea94de8f, 0x158e6579b0388153,
    0x566aa6b7fbc3696b, 0x2c487e393dcedca2, 0x9de2aa3f4be05c4b, 0x1994f82f27153afb,
    0xdad572ccebef6e1d, 0xbd83c87603eeccc8, 0xa8a40b568432ce7d, 0x1b6250553e8629a5,
    0xeabee71f0d0d7c9e, 0x1abb2210bf24542f, 0xd2ae79fd78fa2ac1, 0x020296940a7d1ede,
    0xd7a905032c170c89, 0xf01883cc9e504fde, 0xc297cd31c29f1fa5, 0x2553943f9e0ffce9,
    0xc38f2eaf5f7be08c, 0xf5feb4db4e077965, 0x0ad18faeaf04d577, 0x1c56eb362896c2f0,
    0x7b7735208885cf90, 0xac0f75fef67da1ff, 0x55de7e822b6f7d62, 0x0ed8857205e06800,
    0x2a592681671aac75, 0xebe79e7d9528a8d7, 0xf9d8c3f556367a2b, 0x0118f91185a09355,
    0x37dc1834c13af0c5, 0xd84e21cba75ad559, 0x78010fe6fe0a20d1, 0x2a71e6a67abdb25a,
    0x03061986dbee57e0, 0x9ed25fb9204277d6, 0x575680e4b8929d4e, 0x02327dbc05997ce8,
    0x93d13281792e6d6e, 0x41785a5ec8d447cd, 0xf2971c382d18c14e, 0x0e05235e01f21cc3,
    0x370b107e5a49204e, 0x96c1e490eab264d2, 0x2adfc4ab00f3b044, 0x098afa2ea7ff065b,
    0xbd34ccc4905d204b, 0xa4e35edcb863b009, 0x419adae44209dd25, 0x27bddb7bf06eaa63,
    0x9e06a2bc98837ade, 0x2ab5ce7aabf0601e, 0xb19085cb9d3771b1, 0x2704406bc806f4cc,
    0xb33c2a62b756a3ef, 0x5244f42cf91c9cc0, 0x86756aa902726197, 0x21c75c54664b9fec,
    0xcbddc66cf69fe8ec, 0xaa8164c5ea39a02b, 0xea5f933290699daa, 0x2be84c1d84c16038,
    0x28ac5b239488a96e, 0x65563720d1d5f326, 0x013c676c8c688ac1, 0x2c970e41d48649cf,
    0x3070742edc806435, 0x60546ca032715073, 0xaa1f2654b3a37fee, 0x0e1ad2660a2e958d,
    0x6304e236f577b829, 0x35d5c8763d597f42, 0xe389a55376374c9e, 0x2060ee7fdf775fc7,
    0xe736eac08e6f0f17, 0x0d52deeadad77656, 0x6f09daee0a581af1, 0x1e0116818c843ed8,
    0x951a697c54a7576c, 0x0ac399e3e557e9de, 0x3d886bb58424e694, 0x0a89c1498ef25a38,
    0xf63c516b849a67e6, 0xcb297d4ec9239209, 0xe1097483350f5bd2, 0x0303743d6f36d925,
    0x4cb96c7c3446018d, 0xb0e2e2c37e840676, 0x232df175d462b9c9, 0x08cf44446d968430,
    0x74375f1b00777f16, 0x3769fbcf52395330, 0x1b0a9232eee5d53e, 0x2419811cbaeb3f55,
    0xf4c58369f27fe7b6, 0x809082f1b13f5824, 0x76b774849dbbe876, 0x004237c622626db3,
    0xe947342c14454558, 0x178937cdee34b9e8, 0xe114a5cb87a8494b, 0x1e5b490c72eeb607,
    0x242d0f32ca15b97a, 0x5a72862c61380b1c, 0xf749203cb4a5d141, 0x04265333e59e1a5f,
    0x86de26d35d982e86, 0x4a5c683293c1ff74, 0xc4da682532be43d2, 0x189deaf74258451a,
    0xae08c46af3eca76f, 0x21b36399d03d8263, 0x3a34905cfdedaad0, 0x04ec516b0fd42fa5,
    0x6d595c7701ad700d, 0x8576cef86196525e, 0x3aa1b6642fc98857, 0x2ce1c8a00845a82b,
    0x344e7aee9686b6b4, 0xa1c052a6ed663bdc, 0xb396917478605c94, 0x247816fd0d34f9d3,
    0x86477019daea987d, 0x0cf555091a507fce, 0x609c444de622bcf6, 0x00c676dbe6c494d5,
    0xcce3c5cde80a85d5, 0xe30f4ddf258fc149, 0x07aa7b2148d2dfae, 0x1cb395ade530fc24,
    0x56259f6a56890b0e, 0x69540da023f9ec2e, 0x3b9e65d8fe3c1ec7, 0x190e1494e3cfdada,
    0x160c1d6d9b229fe2, 0xa845ee0a2ea5a3b9, 0x36c351a792343222, 0x18f2941b23351383,
    0x6ab5e403688544dc, 0x2c0e01f757e6a5c8, 0x7df57e0aece1da5d, 0x14ea23ce8b2312e0,
    0x9beff3563a660bbe, 0x0940d6e71f38e836, 0xd554361a29f85ea1, 0x2818ad1005f4efb5,
    0x0817bab49d79db4a, 0x7d65f90b841e0ca9, 0x81793977b49054c3, 0x23ce3a9a522915a2,
    0xa3d41e3f38d5e022, 0x382927dd04249658, 0x9b3b44ece37b1c42, 0x06c2ed2be876309a,
    0x051e4ca36f44fc42, 0xa9853a3749d7fab6, 0xf642b945ca2ed6c8, 0x18b6740f72d77ebc,
    0xcdb06a48b0d9976a, 0x8369ee63e75a1b99, 0x61374d069a9dae32, 0x1feacb9eb2a68780,
    0x56d1073bd13831d2, 0x8d45d5477fd606a3, 0x7300c75ed2b2543d, 0x1a44ee4565a96764,
    0x31ed65a18da9fe48, 0xb067da4846791032, 0x6bf3d62d87d5d273, 0x041f3b3b5b1050c1,
    0x5b7d081c49eb5659, 0xb5898d63bc0d7e58, 0xbd0fbfb8b8a513ac, 0x1fd958cc4fe0a290,
    0x39dca47512561d2e, 0x325943a48fc12cb8, 0x4f09c87a8c34dd73, 0x175daba07c5edbf8,
    0x5ccad9528c43ba78, 0x477d5b2d92cff5fc, 0xdfd5a5a27a77833e, 0x09cf0a4e6e31dc24,
    0x4c6418a6cebe80b1, 0x30bc963bd701c54d, 0xf78e5a3414d44c65, 0x12d49465bd4120cb,
    0xeefb39e28215d44a, 0xaf0bfc2edf010916, 0xb26b2bd1e07c7365, 0x101b2f2b675804d3,
    0x32cb7e5a339736aa, 0x3529a06384562162, 0x749e0b5f11193078, 0x114fc65faba09a59,
    0x58ddd67366d3a9f5, 0xd3cb51017dc4f883, 0x02c2bbf9b67dd044, 0x1dff99b52799afc8,
    0x7931c91062a67027, 0xbdc0554ad3a9a0be, 0xa59edccd7325038b, 0x290f4496a52dd4dd,
    0xdcb97d7d15c7e188, 0x089fb992dca48c8d, 0x3b96721d2033d985, 0x091e8704663c516c,
    0xf6d50bb534c0e323, 0x692643aa09728ead, 0xa0169fc211d0f9c8, 0x2dce22599de04196,
    0xca858a8c6135fd48, 0xecef66daada5f0e2, 0xe67efde72795328f, 0x29a7ff0720e170c0,
];

/// Sparse partial-round coefficients for state width 5, elements 0 to 127.
pub const T5_S_0: [u64; 512] = [
    0x4fc6fdbcf38d7da1, 0x9f22e57ace3cd7f6, 0x080b0af133b9e436, 0x251e7fdf99591080,
    0x9388a0d5b08788ab, 0x0b0e19787b49173a, 0x6623750495e29797, 0x0351d582486c3972,
    0x29d2a9352d3ce8ba, 0x4abb12ec2d15860a, 0x72a31a3b51514c66, 0x010e1a3beae297a4,
    0x2c886a5773e5f06d, 0x1d5cb7b5e5744e60, 0xfaf3ecc72a84623c, 0x12395fabf1c14664,
    0x565bd58758935cfd, 0xbe2ce543f0b4d237, 0x99a173a5b736f73f, 0x09b91873151f00b2,
    0x829e95ff6942299b, 0x49e938bf22791cff, 0x852172c773264b8f, 0x01d53cf618f93c90,
    0xd53af5f2c4d8ba1e, 0xc5ff69259200c2a8, 0xf254396fa7417bf2, 0x1a78e48450798918,
    0xd70a8520ccf16feb, 0x533750cf555c6b70, 0x87afeca8ea128d1d, 0x000d3d4c1eb9828c,
    0xf3daa0ea2e4dc84c, 0x0698a3f49abbe4ec, 0xa6de0ca4436f1a5a, 0x03af062fcd1ca71b,
    0x4fc6fdbcf38d7da1, 0x9f22e57ace3cd7f6, 0x080b0af133b9e436, 0x251e7fdf99591080,
    0xcd53a7f5322005fc, 0x767284a692897ba5, 0x4b25657414256b59, 0x1ad1ba4f26d40192,
    0x2c10b87297041d5f, 0x019ca5a9091b302d, 0x90f4f5982564eac6, 0x1133694747d2cb48,
    0x2a2171be631bd8de, 0x24234f7b392039fb, 0x72e26f559a881640, 0x1b46c42ff1aa4759,
    0x6086e7d9574936b4, 0x262871011f238d98, 0xc817000929e2e744, 0x1954aa0a79f14968,
    0xa593974f652ac4ba, 0xe4c77f0e08ecea6a, 0x796fc7191a103b9d, 0x07aced898db99ae9,
    0x9b2d84c3cdd2c39e, 0x605e20217a09489c, 0x1726d42ada7683a1, 0x18a5a098d914f622,
    0x180f9806083eb5a0, 0x0a21aeb40926592a, 0x8165af8d41019ca2, 0x13e00cf4ab3b1e02,
    0x38a48790561b4e2b, 0x0801fb752ddc88d6, 0x79defe09215b4632, 0x0478f72938b528ec,
    0x4fc6fdbcf38d7da1, 0x9f22e57ace3cd7f6, 0x080b0af133b9e436, 0x251e7fdf99591080,
    0xbcc78c1bc6ce3937, 0x71254910ab4c58a4, 0x77b96d7e4cc37a68, 0x08ff43b0eda21340,
    0x2e5ac0cebd91f928, 0xad02e4d2908ff719, 0xad1ec5a60e8ad91a, 0x27d7fa3ab9c438b6,
    0x06f2abec8efbe56f, 0x71391326a664dfc2, 0x629999251be50d97, 0x1e9ac8ae7cf2b40d,
    0x15bff86f8f261971, 0x6c35cbc8962137b6, 0x636d81f2e98476bb, 0x2d6b56b4849de82b,
    0xd02125aa1fe63092, 0x43a0d90bb6c1b0d6, 0x28fdb3749da99a21, 0x21e70566d2f4bb87,
    0xec3a605b010d4ea5, 0x1bf69a8f3d477eb7, 0xc8e5ee1eaecac117, 0x1c01c050dd9b0b8e,
    0x4eb7b56ca268a16e, 0x0c142109c14ad795, 0xee10816aacc1dba1, 0x282e8dde73a0dc74,
    0x454c7ff9a16d25cc, 0x746d226cfe84b733, 0x6d19fcc57edcd92e, 0x0767cf96b16035a9,
    0x4fc6fdbcf38d7da1, 0x9f22e57ace3cd7f6, 0x080b0af133b9e436, 0x251e7fdf99591080,
    0xd3ded1a581ec21d9, 0xf70ca858468b7f1b, 0x81f82ed0f2d3e6b4, 0x18974b9f253b6bb6,
    0x2111a5a2de99c2da, 0x75fe851989776dcd, 0x50a25222a6a27f61, 0x18153fe8966abfc4,
    0x74381d39c627f36c, 0xe382a4a5d6c49a83, 0x0c2fe2c827e65c00, 0x02da1e2e77553949,
    0xce8d17ac94e79e06, 0xcb403cd6560a8d7e, 0x2b4e832e05fc5ebd, 0x2608589b9cd3f4c1,
    0x563471bde491f146, 0xcff351b407a8d30d, 0x35bf1c1ec1451a36, 0x05b4b074edb1366d,
    0xd7fd464d9eb38096, 0xdea0644555e35822, 0x0217920da66c5765, 0x0856cc5a00bc37dd,
    0x295b4852f54d446e, 0x6b3fca640669d2f6, 0xde457c9db5ab799e, 0x2021dde3ed193bda,
    0xd6013b706574d41b, 0xb52e88b0550b7155, 0x97b2c9f03c5a55fa, 0x12e3785f05f36bb7,
    0x4fc6fdbcf38d7da1, 0x9f22e57ace3cd7f6, 0x080b0af133b9e436, 0x251e7fdf99591080,
    0xe2f9579ee6fe2c1a, 0xffc6e9fe26f0b5c4, 0x980add4df3878df4, 0x118084c76d1340b3,
    0x6c26e9c62fe53050, 0x4d9102ab46620f95, 0xc622c85753ef7b99, 0x0b9dacae8623c514,
    0xf9d0b4012da6769f, 0x8fdf9ecd531ee3c9, 0xba972ae16dc621cb, 0x0daea6d18a826bb2,
    0xf85b7afb7f79ceed, 0x176e5a18dde267a4, 0xb579921fc3208b3c, 0x08f2a5df6437e253,
    0x53b162ba2631aa68, 0xd5d70a5fecc5fd56, 0x3d9aa53b7d2793e4, 0x06a91d7c75e34fd4,
    0xdb58b6b3d6069c56, 0xdc339878c0a289d5, 0x20d759996c313f78, 0x207579e33c36af2d,
    0xe16acf87ba871b9f, 0xc9c2dd6f8a75054c, 0x3392c8cb8cda95ff, 0x25562540cd12084b,
    0xaf6979183afcdc87, 0xa82b103817b4acf0, 0xdd0501ee0fc294c2, 0x00bbf47feca60b93,
    0x4fc6fdbcf38d7da1, 0x9f22e57ace3cd7f6, 0x080b0af133b9e436, 0x251e7fdf99591080,
    0x6288abb9d8b15711, 0xe35aed2fe9f7510e, 0x4804a1ab4ce39815, 0x1e0814ce223453b2,
    0xb2613d6dabbd72a9, 0x1b78b528e750554e, 0x399ae18d6d95a6f8, 0x18f9aa2721d95963,
    0xcddd929bbb5875a6, 0xba6bf4c98ea0caf9, 0x8831c559c64080e7, 0x2ea329822ad302ab,
    0x00872925a046a338, 0x01cb5262ed19cd0c, 0x93bca80677a3647c, 0x29910d86bc27b38a,
    0x6ef54d3dfc0660ab, 0x7423f3c211d26e8b, 0xea895e01d630ce6b, 0x021c0a05ace45015,
    0x4bc6a32a3f5c0fcc, 0xdbd7ea5cdd7a9122, 0xed2ff8c68be30bdd, 0x025e7c463042f520,
    0x538ae7db6b6a7d21, 0xdf080234e9b92201, 0x11e0dcd1ff4237ff, 0x0df5b7e7663197f9,
    0x2650f9d63ce37c85, 0xfef3b6ca923c6838, 0x1d2b9bfbc2bd78de, 0x094d0fcd9592b477,
    0x4fc6fdbcf38d7da1, 0x9f22e57ace3cd7f6, 0x080b0af133b9e436, 0x251e7fdf99591080,
    0x4fab36aa12407263, 0xdd544e8bf048658c, 0x91a49d4b7cd6af9b, 0x270361108967ed03,
    0x07ae332857821961, 0x4dbdd1656483e54e, 0x4c847bea65410191, 0x18bbf89e7cae9304,
    0xf6b4d3d66777bc1e, 0xb587758d75239071, 0xfa83507a2b8947b4, 0x04aa47a0ede64ecd,
    0x9fda17d354d3ce02, 0x6a596f5671018490, 0x3ff7def1470c06aa, 0x182d30ec988fca80,
    0xbafddf10eb1f8448, 0xafddf85582e4c70e, 0xdffc59cb1a53c761, 0x223c27171e456846,
    0xc8c2e0903114c915, 0x5a08e9ea1eb369c5, 0xdb78ea4d862c48bc, 0x07d46dc97554a25e,
    0x36d7ac04c4d2a964, 0xe32cbbad362bdbf7, 0x523b486d264941d8, 0x1bf473a2e982e519,
    0x4d39397aae5b6da5, 0x4cf21630ace1fcf4, 0x2b0a57eb189e7771, 0x12277b175bf54c3f,
    0x4fc6fdbcf38d7da1, 0x9f22e57ace3cd7f6, 0x080b0af133b9e436, 0x251e7fdf99591080,
    0x1dfe6fbb57feb15b, 0xf83e89e3337a84b5, 0xb86a185031f489a9, 0x15c0a2cfffac7fea,
    0x2763abcf99359ccc, 0xb9efd4bb9eae4c4e, 0xe52190f5a415c1fb, 0x2b83199ec584185d,
    0x241b2b0f4925d7da, 0x645d4e451c940ad4, 0x5b02adccb76937ef, 0x28601b9940a312c6,
    0xc3f21e8d611996f7, 0xec0566c8a6936978, 0x420729e016901b94, 0x1a187b4875be24a2,
    0x201b8e31065d5c57, 0x6e68d56de2a465a0, 0xc7e44824e64978d3, 0x10ed1fd44722d10b,
    0x684a3573486dc227, 0x6f7e70f02d859c78, 0x377a9bfd3efe4845, 0x2c4b6867179a949d,
    0x21a07da7b388dfb1, 0xafd87d0e20ac38fe, 0xa0f61655a8bb35a7, 0x15cb2c17aabecf7a,
    0x79316e39f7d845ec, 0x7699c1ffa889fce1, 0xb3e61f4166a733e8, 0x04dff03c742111aa,
    0x4fc6fdbcf38d7da1, 0x9f22e57ace3cd7f6, 0x080b0af133b9e436, 0x251e7fdf99591080,
    0xc2b0d98cead394a1, 0xe4ec0e5e99ba7cba, 0xe70cc92d5a72e00b, 0x17baac874eaaa88d,
    0xd73f664fe05f6247, 0x5a73983d5ea4752c, 0x2fb22ba949a050c8, 0x1dba338b4779919a,
    0xcd967d8e7739f719, 0x86290c7b856becd5, 0x0de5771d69e58f44, 0x1e33e7fcc41f32f9,
    0xf98612afafc9b604, 0xb5d87d0c040f02a4, 0xff93977d3862e3ff, 0x10877ad7cf0652a2,
    0xd0e5eec430350595, 0x0df6af533d4b0875, 0xbcc9110defb9d6c7, 0x115d3675856ff59e,
    0x6af4702ca749dae5, 0xda6097537549db7e, 0x874e7bcdc782f478, 0x03d74b961ba9013a,
    0x7e06000f74887cdd, 0xb7992e44d263c29f, 0xa8fd18e4eba3c9a2, 0x2563411e29867500,
    0x654b7b47899738d7, 0xf1af4dc2f36a4a1e, 0x3e6b1b29160d6ec0, 0x285501c4e0ee1b3c,
    0x4fc6fdbcf38d7da1, 0x9f22e57ace3cd7f6, 0x080b0af133b9e436, 0x251e7fdf99591080,
    0x28c04ed8ba68704f, 0xc5c75e941dc30e72, 0x179e33103a81d969, 0x209194489c86891b,
    0xfc162c2f7ddad845, 0x15aaf03a89532dd9, 0x52926900cc168b23, 0x2c7b2835cb79c298,
    0xd1022dcd4a8a635a, 0xedff686e9e835869, 0x0bf00ee21c16f248, 0x1df181c420308c5b,
    0x9142c866ef4c7474, 0xcabc1d758bb99c32, 0xcc1233506f708d9a, 0x1ffabdffee2481d8,
    0x9d8a074ea65540f5, 0xae1d9d50126563b2, 0x027e4355a694a9b6, 0x08955ed55c2bec07,
    0xb6ce93b64fd01da2, 0x7587791417cbc355, 0x8471846eb375163e, 0x1ab4b24a4db7c575,
    0x05ecfa8b1805c609, 0x8215e11217eef1d6, 0x9270bc633164f3a6, 0x25a3439d2838ad45,
    0xb6a6ecb2bfbf02a6, 0xdd988ca5c84761cc, 0x013295a8251fbe17, 0x065240d63179ae83,
    0x4fc6fdbcf38d7da1, 0x9f22e57ace3cd7f6, 0x080b0af133b9e436, 0x251e7fdf99591080,
    0x9f3155ee12b1c564, 0x5cd1b109cfa569b7, 0xbf876a2ef895c331, 0x0c1a91ddc1b24113,
    0x8989cab5fdd36ac9, 0x75f1b68399efceb1, 0xae921069f4af83f6, 0x146fe8e28539ae36,
    0x38adf75e1a0d3641, 0x39810efed7bdba7a, 0x2e30790090980db1, 0x1ba8c3cfa4642541,
    0xb4d269ba1ed234d8, 0x726b0f1374f59eaf, 0x66636bb8418db624, 0x083a58c9d889b74e,
    0x0edf0336142a25f3, 0x41aaf99d1c61839a, 0x8df6032192ef0335, 0x2b812a76ea526ce1,
    0x634488cc8eeba645, 0xba8c09e021c16aa8, 0x0a5d913600538030, 0x295f6d35fb9e57a5,
    0xbb752296032542e6, 0x71befe5138061dbe, 0xc87eb67b1f64660c, 0x1de69ba07e3b9f90,
    0x33b0965665208f59, 0x9796e89caa1a3a35, 0xee0162a86578ca89, 0x24734fa363e52c64,
    0x4fc6fdbcf38d7da1, 0x9f22e57ace3cd7f6, 0x080b0af133b9e436, 0x251e7fdf99591080,
    0x7a7b51e3122111f4, 0xdade9dbf1d103041, 0x6fac071fe3522be1, 0x2d5fb67efe93e838,
    0xbf7568b857afab75, 0xa0b042a81b75da6d, 0x73e317fd7958a021, 0x19522e9228feae74,
    0x695b33b290479342, 0x129fbe889fce42cb, 0xafe83fd9ef0b708e, 0x2bc3f6f0df0c7305,
    0x1015d6512818690e, 0x7ad4f9302d4828b5, 0x3bb8c406909f0db7, 0x0783e5635eea0e62,
    0xa9a3b0d8885bccaa, 0x5a6d0da8db17d115, 0xaed6fd2e4969ddb9, 0x2d61b243f02e21ed,
    0xd76fe0ad36ccea12, 0xca89a4468df1ea25, 0xa86e67f99279fc06, 0x055e1a09f4bd4809,
    0x1ee7f077a0d7a85e, 0x7da63ed0376420bb, 0xde61e55ba5c9f4e3, 0x17871eed22b0cdd2,
    0x81c1fe02fe130091, 0x8956c5f0a4252cfb, 0x0d4d835d18c915d9, 0x20fd0af1329bbdd7,
    0x4fc6fdbcf38d7da1, 0x9f22e57ace3cd7f6, 0x080b0af133b9e436, 0x251e7fdf99591080,
    0x96b2f6a8fcc6b262, 0xd9633c83cef659ed, 0xec3613e22eb7b071, 0x2e5b840ca8faeba6,
    0x865a352c61d6b111, 0xc92ff49e900b5601, 0xa388ce585a81fe7c, 0x05f5385703edf7c4,
    0x91c9c0d9937a3fab, 0xcb1cc78ffcf0c8bc, 0xcd30cc1c55cd5844, 0x21e83ab5e95d369c,
    0x3d992284d90d724d, 0x30a5d004ca50258c, 0x06ac525597f1275b, 0x0a67b7ed9c379463,
    0x76c2ea3b5d868b27, 0x839dfe71891489c3, 0x5425c9610461303d, 0x214f52f9f73a2c2d,
    0x3ab720bf40da0c7e, 0x70ace216d9ac1025, 0x9656929cdebd850f, 0x241e0d267f7d1d89,
    0xf40d85205fbd8bef, 0xbc2a05a37352e954, 0x82e110b10e8aed1f, 0x2229153475b7a6b2,
    0x4540619c84782d2d, 0x1a61a5f4eba68863, 0x895cdfab3faa4f4c, 0x0f30d0b7cd8ef10e,
    0x4fc6fdbcf38d7da1, 0x9f22e57ace3cd7f6, 0x080b0af133b9e436, 0x251e7fdf99591080,
    0xc369078de8ff7aef, 0x408176d8b9110ae8, 0xe1660d3dd43d1869, 0x265589a340c71d49,
    0xbc3e85801252ac2e, 0xf15630c94977d35e, 0xf4f464991dd651b9, 0x1bcadf844bd1a2e7,
    0xbc56eb7ef6bcfdde, 0x9cf40b7ab98de8fd, 0x8518cc039fe05064, 0x0c112b1c56ea288e,
    0xfa04d9005283aa77, 0x270be15daacbfa76, 0xd505cd3947e11a04, 0x0f020b9ef75af8dd,
    0x53da24c19c601688, 0x7ef7d07538d84b1a, 0x66acbbaf2a7cc8ef, 0x0a426601ce9415e6,
    0xe72a8be04594618e, 0x8ab97d69739dc462, 0x1fe2003123aee900, 0x10a1af6550361438,
    0xe188131595b060d2, 0x012d84b3837b7415, 0x8dddadfe3893d158, 0x2d792f9fe5f0ad65,
    0xd0b63c2598f5f65e, 0x9f8a98f7f5bf7421, 0xb3869031bf382c3b, 0x2daa42d04e0b62fc,
    0x4fc6fdbcf38d7da1, 0x9f22e57ace3cd7f6, 0x080b0af133b9e436, 0x251e7fdf99591080,
    0x31ce8a06f908c0ac, 0x784dbcdbfcb6a28c, 0xfb5cc4187f271096, 0x144c0395157a1bfc,
];

/// Sparse partial-round coefficients for state width 5, elements 128 to 255.
pub const T5_S_1: [u64; 512] = [
    0x5df7f40446277a09, 0x5e94c9ce64add441, 0x1601962266752764, 0x1af8cdba0eccc83c,
    0x591e6adf42fcd906, 0xa25bee433bade010, 0x11530c210a8d6f46, 0x213c7a7ad6237e72,
    0xa5c9d5895da4ea42, 0x064a83f5821972f2, 0x9ad0e6c41a64968e, 0x224f1ca24803c011,
    0x31246ca4b99aad2b, 0x37e3b1b93ba73a15, 0xefdde41ead133449, 0x10944d95ff5a3699,
    0x75924923d8079ec2, 0x9c006ebbc09d94f4, 0xbbeee5286ce5f183, 0x0cb2508b0a3395fa,
    0x34b0f563a672acd1, 0xe2d4a70941039121, 0xc0f8f7d8d0e4b19f, 0x284a14b1007ff6c5,
    0xe77580b9d9a9060f, 0x55b0dbd42e8de516, 0xa27eed426980cf90, 0x2bc0bce43d55bfe1,
    0x4fc6fdbcf38d7da1, 0x9f22e57ace3cd7f6, 0x080b0af133b9e436, 0x251e7fdf99591080,
    0xa26ae296f73c5c72, 0xb7f210f3412c4481, 0x8b6f8a384368c358, 0x28e9b1884a4619b3,
    0xb65af90457f00614, 0x2ed020ccff3a7ad6, 0xd4e1b323fd2942d1, 0x2123ca1f119a35e7,
    0x252f01e31035b8ad, 0xe39efa895acdc280, 0xa82fc0700beaab2c, 0x04aaffb0ba008fb9,
    0x639af1f37e1073d8, 0x5e2c2d2314629a22, 0x2443b9b31cd90801, 0x1f1e16f8ec9261c8,
    0xbedfc66b5e2ae924, 0x248285d583613ea2, 0x9214ef937b7f7a28, 0x134928ff5ebe5e01,
    0x9a3e1c7ab5f212e7, 0x57a4f09228cfa774, 0xc9d55047ac98030c, 0x087fc99e11e63dee,
    0xb592a64e27cca486, 0x75299500a36ef791, 0x14df5b07fa116f88, 0x09429bcc52d6c438,
    0x44d7760354e401f4, 0x204bd4fd06c77255, 0x0a80bc8b4c0026f0, 0x2267b1dfa5d26e6f,
    0x4fc6fdbcf38d7da1, 0x9f22e57ace3cd7f6, 0x080b0af133b9e436, 0x251e7fdf99591080,
    0xf7aa7964b34ff1dd, 0x8e5a640035ac2caf, 0x48c9988f428d198c, 0x16fb3cdb76d21d34,
    0x3c425b29b092d37c, 0x4478028b61047ff9, 0x79df06bc98fc6459, 0x080dd9d263a66984,
    0x15bebcb2684af340, 0x21e3d013865085e5, 0xa5f46abeec4ab03d, 0x165f4f2d302a24ee,
    0xb2b7e72e8d9516cb, 0xf0df1049b6ec521d, 0xc62045789fdcd302, 0x0a8a3f3abf28f457,
    0xad59ef3aed48aae9, 0x9014bae831809cf7, 0x977578b12810378f, 0x2342f103587a005c,
    0xda6220f29eb1b7d8, 0x3eca377f396061aa, 0x6e158769c1221301, 0x1d1308e311e7ab84,
    0x8402a1e2bea5a998, 0xc913893761b75a3f, 0x2be07dad903ebff5, 0x2563949aeabfaa78,
    0x157b48746bbf6ebe, 0xa73e415e0c9f6387, 0x5bbc32dc21782704, 0x0cb371898d8d2e1f,
    0x4fc6fdbcf38d7da1, 0x9f22e57ace3cd7f6, 0x080b0af133b9e436, 0x251e7fdf99591080,
    0x94093a0b4cbc6845, 0x369cdb6e8823aec1, 0x47010ebe4f63d186, 0x1231d40e7c6fe5bd,
    0xcbed9c49a9775b97, 0x7ba0ec36ad7e5c92, 0x747068255f57a043, 0x018943696a4da551,
    0x94a53af30bc40670, 0x34f2cdca527973c1, 0xf40e3b01bfe32dfd, 0x1fa58f378160dd4a,
    0x372250fdc5ad8966, 0x2e4af95efe3af9e5, 0xc5579041bcf5e827, 0x0c976561eeade533,
    0x09823656231d3bff, 0xc576d579eae86b1b, 0xe9fcf831f315a4b8, 0x0cacfeeae1a8359a,
    0x073cd221a2106fb4, 0xfacfb586bc2fe63f, 0x54e4a155308192b5, 0x109b0647298eaec3,
    0x14dd19a7bea39781, 0x202dbcdfadd0ee8d, 0x23baa0e6754c5232, 0x069d4744aca289d1,
    0x63a26dccfb7c6ad0, 0xfcb9cc9fa9ce0711, 0x184fc58a30e1a9ba, 0x156195fe27df23b8,
    0x4fc6fdbcf38d7da1, 0x9f22e57ace3cd7f6, 0x080b0af133b9e436, 0x251e7fdf99591080,
    0x997af8911560fc12, 0x25e232a42476ef06, 0xdf51a49ca26055bb, 0x20fed35942cbdc86,
    0xdd64c4569d31471e, 0x039f1a82c6c02446, 0x5423dd3450c2fd74, 0x0cf20343957a5534,
    0x5d77b4bc34c25ebf, 0x126bad03049fc402, 0xa56c40f919dc1f07, 0x1e177139b05dbe38,
    0x6ca493c83050e932, 0x11e9614e3956d932, 0xaba8ab2a4368d579, 0x144d1944a849fdc2,
    0x841b85f1180cbc1d, 0x3405aecbf2356508, 0x0a9bb1acf1223bde, 0x162f08d305fe4f1b,
    0xa98c5f8117415d97, 0xed5caec1613a98b2, 0xc7c5f2a54d65be40, 0x21d68868502ab599,
    0x8b52968b0a248789, 0xbf7e22cf199dc435, 0xbe4027c68c6f3a6d, 0x0984adb0c5263193,
    0xffc7524235d1e4f3, 0xf6e0a4a82eff568f, 0x7f347a8011b0f0d7, 0x2883f3a940a8c10f,
    0x4fc6fdbcf38d7da1, 0x9f22e57ace3cd7f6, 0x080b0af133b9e436, 0x251e7fdf99591080,
    0x9378c0c4d3d1e692, 0x730e8ebf2bbfacbf, 0xba07d2fa8432d412, 0x0d89a340993be3d3,
    0xa0e3f6e7383f7b02, 0xc77556fffafc8f55, 0xbab24c85e7a63572, 0x105e4a12836770bd,
    0xb1b59794c8b117a8, 0x07f5e8a073810b28, 0xfd0780af3f99cbb7, 0x04b09e851bb6dbbf,
    0x091ca57d21906d41, 0x12a2292202e67954, 0x2bfdd2589dd502a0, 0x2c8031907c10e1df,
    0xf4f3f544f672d703, 0x06abd82fecb0ffaf, 0xaddcba291dd25539, 0x088a360cf4c5e26f,
    0x6c178084cbb155f8, 0x2e84f146bbd57c56, 0xf95840b5651f3291, 0x0e9e8d8ba62712e7,
    0xe45e86c12c6f6fe2, 0x250d31d6011140e7, 0x42ec414759bdeca4, 0x038fbaea7dd737c6,
    0x72c3d47bdbf461ab, 0x506c4901c52dbc27, 0x0c18e516511b03d8, 0x096dea6e0d6411dd,
    0x4fc6fdbcf38d7da1, 0x9f22e57ace3cd7f6, 0x080b0af133b9e436, 0x251e7fdf99591080,
    0x9da9672d21f07037, 0x8c4ba9fa0679d288, 0x07b6b41ed7fbd527, 0x2d60fb66fb133b05,
    0x2b60aebafb1efc7b, 0x1d2038a11969b3eb, 0x7799d5b50c8c582e, 0x2567f444cfdbbf4d,
    0x6b0ca5e2c685bb2c, 0xad9b59e731c1ec4e, 0x11bc6cd9fb0bef62, 0x2401d941b4fafe33,
    0x8eb7d9214fc8fae6, 0x12769f7040db4f09, 0x3ed4e6525da70a43, 0x2874774157928385,
    0x442a4ea92bcb9743, 0x79e512cd70a15def, 0xf99500f20c4fb9d4, 0x1104899fde3f530c,
    0xcfb37fa8a3a8764c, 0x34f6197a18505e3c, 0x977d4b3020db51b8, 0x04ddfde1b1aacb33,
    0xce56c065e3cac8aa, 0xfe3b9af6a568194e, 0x04ccc3e50229220e, 0x2bfa6913d62c8aea,
    0xf96ac156fa72a90e, 0xb3c9c09aac565d46, 0xcf25adcbd0550c2d, 0x05cb914ec7b72436,
    0x4fc6fdbcf38d7da1, 0x9f22e57ace3cd7f6, 0x080b0af133b9e436, 0x251e7fdf99591080,
    0x0ced3e0421b7077c, 0x49ab6faaddf5eb58, 0xdf4e5bbe377a3b76, 0x145dcc8a89ffd8fd,
    0xaaf2e4bbc1f3e80b, 0xe3287f5de3897acd, 0x49718346cbd390db, 0x21f1b7c169a0744e,
    0x4ff7caf4e6eaf6b4, 0xdd1165cce5f8f057, 0xba6bd062c803ced1, 0x0eeae34b5e8e48d2,
    0x29d5de89a8ff75e2, 0x4aed9b5d37f18150, 0xa12f37aa0434e01a, 0x2827170c30a7f570,
    0xeaee36f59a4cee8a, 0x018328d6d0c89503, 0xaf526c8004597fbe, 0x0e328161a29c0376,
    0x4fa40055c8d978c6, 0x36778fef6644b868, 0x779f907e749603cb, 0x0d6617ff29ac941a,
    0xbd79801fa23094ba, 0x4d6a50257ab9c032, 0xef32109c064d251c, 0x169506e0877092fd,
    0xf1a368004dc1742a, 0x4d7095b69758aaa9, 0x52294e8cbbcbf83b, 0x08c516740479e1a8,
    0x4fc6fdbcf38d7da1, 0x9f22e57ace3cd7f6, 0x080b0af133b9e436, 0x251e7fdf99591080,
    0x2f541ee4c0f2bcda, 0x7ec527df5deb6c00, 0x18a1aca1dfeacd7f, 0x281bcec4cbcefa9e,
    0x685e3f34ff47b86c, 0x760410b68b77f694, 0x6d4c2619b87da0ce, 0x13ea58a6a82bf43f,
    0xe44162656c36080b, 0xe2103006ac045566, 0x1e4180d59a78dd48, 0x1ed604569bf581c7,
    0x317ed21a292abf6f, 0x758f98c5bca884e6, 0x272f10ea525e787c, 0x15d25d19f8fb93c9,
    0x222bc72d1d8d1439, 0xa4f0c241e8607983, 0x4f370a122fc60daf, 0x1696701143abf579,
    0x04a4a3780b109b50, 0x57a0476b77eba562, 0x6ffb53255487c1af, 0x1471c9bea5d88067,
    0x1a27924b714cc00d, 0xb99817ffef481155, 0x34dcbdde64fd6ae8, 0x1ec18e953909ee6e,
    0xf3fe5f08682c807f, 0x2f86e7ea44ee6d94, 0x1633229dd97f098a, 0x089ad915c65eb1cc,
    0x4fc6fdbcf38d7da1, 0x9f22e57ace3cd7f6, 0x080b0af133b9e436, 0x251e7fdf99591080,
    0x3313d251889a9d55, 0x809ce83671dd9a93, 0x7b12b42d68ab707d, 0x007e3bb22a5d8f51,
    0x861ce061e3f38621, 0xd1a94e0412002d83, 0x9975ddf59d177aee, 0x142b4285cb7ac724,
    0xa31c5d1da484ec43, 0x324caa4ef4052916, 0xef1e248f64c4d81e, 0x24839c6f8fade0c2,
    0xc8f8c7c174c5a57e, 0x7846fcfa9289ae59, 0xf40955a3f4a19cf3, 0x0ac0879ac864dc7b,
    0x31f01f3c6c1f8208, 0x1e2d110468762d3a, 0x192406deb4a37ea6, 0x044832eb1eb4ac43,
    0x0e6cbcb533f2dca2, 0x2089511c7ba58a31, 0x26e995d14c6f8aba, 0x2b3f948fb289860a,
    0xe0f431a0b574681e, 0xc0a03de15e370b5b, 0x1f187c1b1eda2f48, 0x118bfa7e2d138630,
    0x9b0135d4970c2349, 0x6ab59b85364c0c3c, 0x4d22e0fcb24553b9, 0x1399fb352bfce787,
    0x4fc6fdbcf38d7da1, 0x9f22e57ace3cd7f6, 0x080b0af133b9e436, 0x251e7fdf99591080,
    0x09b9ba651d737311, 0x95af8f615b76cbee, 0x286c5efcc9cf22d0, 0x2f25d0089300da1d,
    0x14b988d99f141e3d, 0x742a7bed021c48f6, 0x992c7d05790c42cc, 0x084eaaf7a0b07cf4,
    0x3f1e4b3f45dd1cec, 0xeb5be078155e58ac, 0x3c4d59504fa47c87, 0x0cbb53527ad34cbd,
    0x209097b1d22d26b4, 0xda3a42e2429322bc, 0xd3cc60741cbc21f6, 0x14e8e0d80d2af6ef,
    0x6ede3f9da3172922, 0xdf2ad19fb71e067f, 0xb470a132191d2739, 0x149dc605f3ad39d4,
    0x015b2088f12b9897, 0xd3b4b502047cb268, 0xa3e538172b8d5636, 0x1533cdda4fe346f0,
    0xe8cca37839805c62, 0x330718bb901beedd, 0x4358160f3cd24a01, 0x1da21ab47505b1ed,
    0xe8c8efc6ba721b18, 0xaba85c363deda16a, 0x96e121bda6bd3892, 0x130eee6229e63460,
    0x4fc6fdbcf38d7da1, 0x9f22e57ace3cd7f6, 0x080b0af133b9e436, 0x251e7fdf99591080,
    0x83061a915a6fbdeb, 0xf300df2416cdf04a, 0x702a76855510918e, 0x1d0669bb3cb83ad8,
    0x7e8130967c95080d, 0x2e23179a0c23787b, 0x55417d499467b750, 0x113f0f0db6992670,
    0xac16032499bada61, 0x66fd409507971fcb, 0x405a9c14282070ef, 0x28cd66f5e2046799,
    0x17932821c1dc9502, 0xfa7741b776537260, 0x8c0cc9bc2c72a64a, 0x230173d8146362d2,
    0xe423b2b3ab81c187, 0x37e1e7e8287b8abd, 0xf32366c35a7f2938, 0x04b23de911f3a1d3,
    0x29a91b0ca994db04, 0x6178ba245cda76e4, 0xf977dba6d523ef1f, 0x0d4bcdd5ff441637,
    0x5a93a41e6f4d3e2d, 0x9b55558f33e0f864, 0x8603066321ce4821, 0x093bfbfaa8f3a871,
    0x6b4ab709dfca551a, 0xd232e756ab34cbed, 0x54bfd0e91e62b5fc, 0x24e21e25f0b3d0e7,
    0x4fc6fdbcf38d7da1, 0x9f22e57ace3cd7f6, 0x080b0af133b9e436, 0x251e7fdf99591080,
    0x0b82c8c644038303, 0x03d2ac0127b21640, 0x70a4411f57f9e74a, 0x146990fff0e10b8d,
    0x90212f188ba4a87c, 0x37b7c689bdca187d, 0x5ba0671b0a34a4cb, 0x1ddaefaba77bcd9c,
    0x6f5e3e5993ddaaaf, 0x3d9250fe47098095, 0xdcfc3d6682b0267e, 0x0a7c37e8eab27e5e,
    0x98dd24a510b8d6b5, 0x05d5170858121907, 0x74b35aa9d673878f, 0x2d81f6984b67d7cc,
    0xfc79ae31ad04a349, 0x6664d8ae0c965bf0, 0x1338bbe98ed3c072, 0x07c46458e45e15ce,
    0xa24ab09837b5d2da, 0xf3c987d5f162b6b0, 0xea0e62df8620df74, 0x16dd83567c7289d8,
    0x9015ec4e34b29f1b, 0xf3ab5e8d73314613, 0xc535a83e7d709f80, 0x21819b9d78ef5e05,
    0x288cd02834c0e44c, 0x07f918a2e179e6c7, 0x0f39a6a32149b543, 0x2340a29e4e4d4e92,
    0x4fc6fdbcf38d7da1, 0x9f22e57ace3cd7f6, 0x080b0af133b9e436, 0x251e7fdf99591080,
    0xb0a886af86d64305, 0xb36abc3d967b20e9, 0x0c9fbbee28972453, 0x1ced784118aac988,
    0xa139252338a3ea5a, 0xc6c9173f7a258f4e, 0x4b30cad5a3cebfe2, 0x237848c6b0c87f79,
    0x7a77751813c8abb4, 0xd703b1721fcf73b1, 0xee04b355abe2fad8, 0x27c636aa956756d9,
    0xa213f8fabd142d09, 0x6ae340eff9ac0821, 0xd43bd3950c00f81d, 0x1b40358386698e21,
    0x96f8c037bf52145b, 0xedfcdaea2dfbe065, 0xa7188ab9bd8072f0, 0x0695487b95b15fed,
    0x96145d898dbf3220, 0x4e2bb1e7fd3615cc, 0xf22a80c252ba12b2, 0x1df336831b6745c8,
    0xd92e79a1165e58f5, 0xd59986c55377a82a, 0xc19f021b71fcb1ab, 0x264b7a66fcd41995,
    0x14d75a886a1a42bc, 0xb39f78b13c9d150a, 0x4aacda9868250ca3, 0x208defb2122d5322,
    0x4fc6fdbcf38d7da1, 0x9f22e57ace3cd7f6, 0x080b0af133b9e436, 0x251e7fdf99591080,
    0xc17a7fd224a48a13, 0xca6c0d2706b2a17e, 0x0841cd804a211151, 0x1627fe11fe92ca5b,
    0x112b15a93459627e, 0x738eae7232e365df, 0x88ec73c257cacba9, 0x0d483b82a1ed0d67,
    0x47116d5cbd34f9fc, 0xfc37d71db5e9ffd2, 0x3f902459851afb3c, 0x24c490612a1636b4,
];

/// Sparse partial-round coefficients for state width 5, elements 256 to 383.
pub const T5_S_2: [u64; 512] = [
    0x4768548346c8593f, 0xcf195104459a9108, 0x56307066141837d5, 0x2f2d08c8cab748b0,
    0x08fa79a92e84790f, 0x1698954c8f300af7, 0x6b0c097a03de01ac, 0x042d3a4f87d78232,
    0xc563876f92e4c62c, 0xcfae3193e8f7e16e, 0x1593d253ecc7a12f, 0x2b064fb3fabe9deb,
    0x3ce6c0a532628e5a, 0x1e21748554dcb761, 0xa201655ef3891a48, 0x22b8060d8bd295c3,
    0x0711db72a545503a, 0x02c8a9d4d463b27f, 0x67aa96af20059f0b, 0x1526148f85ce6106,
    0x4fc6fdbcf38d7da1, 0x9f22e57ace3cd7f6, 0x080b0af133b9e436, 0x251e7fdf99591080,
    0x3388f60b4e180986, 0x93db48c414f967d5, 0x671d376e499cd793, 0x12d2a42d255875bd,
    0xc01991c81c0e2669, 0xc211a3504a8de66a, 0xdf2eb09ed595e2f2, 0x22d0f27c6767b64a,
    0xb5eca3fde587dc91, 0x913375db065ed255, 0x9b571248a9a994ea, 0x1fbcdf3ca6f2e073,
    0xcff21deae9a70e40, 0xa7c3fb44a110c4d7, 0x0c700cbea0d8f527, 0x0402b7640d18feac,
    0x8a31b0dee0c68206, 0x0f99f231ddccc779, 0xc3888f1ece7cce4e, 0x27f6c76f1b519e71,
    0xd12df08b53d963ff, 0x8716d0eb50017aa7, 0xd8e3b0c09f5c0fd5, 0x2fe908cd208699c9,
    0x7bac604c177fcffc, 0x0b3cf8eb3fe3f495, 0x21afccf1610aa5fb, 0x1922a59ac83c1e28,
    0x5068607250ea0ac0, 0xa0f85ec5abbde6f8, 0x4a05919034b8a7f9, 0x126fc5609db3cb25,
    0x4fc6fdbcf38d7da1, 0x9f22e57ace3cd7f6, 0x080b0af133b9e436, 0x251e7fdf99591080,
    0xb6b7017643b6c28c, 0x8651bb6f5c80f750, 0xe954d69f5bf8f683, 0x28db35e17bb31e5b,
    0xbd4ecd2baf40b384, 0x3e1537761d874102, 0x728c5e09454535a3, 0x26dd684288015065,
    0x7e8485311cab159d, 0xfc4b220d3aaa346c, 0x7090e45df74981b4, 0x1895d33a312becc1,
    0x509c404048b7b5aa, 0x9c12c5622d0ecc5a, 0xd007a92a7c4d88bd, 0x28bff25eb0f2a5c6,
    0xaf67b31e845c976e, 0xc9efc0a1be738453, 0xd49556f3a6bf0739, 0x130136f07c7e09ac,
    0x307a6d6075714ede, 0x93f989fb3e5698e7, 0x0dadf3d6b64eb654, 0x259c455761e6b642,
    0xa133bd697f618929, 0x45eef54405ed2cfa, 0x02006c7529eb1e8f, 0x1c9ac464fb08828d,
    0x77148f3d046dd180, 0x7607dd732e71c050, 0xda7b24719d35018f, 0x060abe65207efd0f,
    0x4fc6fdbcf38d7da1, 0x9f22e57ace3cd7f6, 0x080b0af133b9e436, 0x251e7fdf99591080,
    0x6ec2f500ef42b000, 0xa3e6e521b85a8900, 0x8969667071926905, 0x2a41f347b5f6eebe,
    0xe787edc5a94db63b, 0x6a68b94e3f870501, 0x31bce340ffeb5a3b, 0x17840fa3a1801777,
    0x0d89005a688d9b18, 0x430fba680a5a5059, 0x8eadb0e2f2cf6b16, 0x161ec94c3f624f92,
    0x30866e1bca6e2cc5, 0x6b06e2701ce99b76, 0x5b773c3a548fbb28, 0x22d8be171b4571fb,
    0x3a9feef2fecfb978, 0x03db8edd220f90b0, 0x5380aaea9b06e76f, 0x052464c9c7ad1452,
    0x1b157d92c3cf4746, 0x90f7be5a95a22c8e, 0xa0404d8b0593879c, 0x0bdee83b20d91ff9,
    0xc89cc42b61717302, 0xad51a4e1051f41f1, 0x2d8f246123b8e631, 0x2d84235b4f4e0426,
    0x367ce7963cf93d86, 0x85e519266c4627b1, 0x64e2971cc6a7c1a5, 0x03d6b62f816bc4b4,
    0x4fc6fdbcf38d7da1, 0x9f22e57ace3cd7f6, 0x080b0af133b9e436, 0x251e7fdf99591080,
    0x0e9083a022d27692, 0xf98f670bdbb847ec, 0xb3ed958d3aac8d09, 0x16caff6fcc165168,
    0x6e966db45fc067d4, 0xf6de4bee730cd467, 0xbf76ef7e06c81adf, 0x2cd4beaac59c5306,
    0xeeec58177ce8608b, 0x23ecc5afa92c0ec9, 0xffeda3782fc7a826, 0x1b11abd8ee736830,
    0xbc870ec8cbe93cee, 0xd513af20d4705435, 0x0c9e10a22f6b781f, 0x2c80d3430e64bf85,
    0x4d4449e8f83bd015, 0x454aa77a5055ebfc, 0xc9fc2d0e49fef7a2, 0x2d2f20d2ec0e52ee,
    0xc524b19de646e0b0, 0x96370ee2a4ed459e, 0x4edae4f7dfe6137e, 0x1e51c55a8d7a04be,
    0xbd25659790738f43, 0x3992ec72d459760b, 0xc8f97e36ebb5be1d, 0x13d4327afa809e26,
    0x25e1f43a755e6b81, 0xbdb9dcc3a79b44fd, 0xe8a967920376793d, 0x176222f47d8c0ff9,
    0x4fc6fdbcf38d7da1, 0x9f22e57ace3cd7f6, 0x080b0af133b9e436, 0x251e7fdf99591080,
    0x7d03b1cfcdd6adfc, 0x9336a197fdd30c6b, 0x8012ede93db828e6, 0x05193cbcb59713c7,
    0x7f8661504a457c69, 0xae9f8c6024285165, 0xf2545cba9f717d2e, 0x2bbe660fd34f6ac3,
    0x3c857b2293333c3b, 0xa121c451f13e48ab, 0x8483406e6cd62aaf, 0x1fe59c3d2724f415,
    0xbde31fef7f4f91a7, 0x1eb864524003add0, 0x1de45c9769ebad07, 0x249c893f9de20860,
    0xf786a25ac1a5fe96, 0xda26b0fa8639005f, 0x0dbb929b69b24751, 0x0c20c4a12bbd772e,
    0xb174fc5ed95ce55b, 0xf7d513d8954f31df, 0x26ceb3a3065a487c, 0x1a0750fb1d27bcb3,
    0xadfaefc91d409cad, 0x67fb6814677b262a, 0x2eea997d45ec4f05, 0x16d40c0ba7a7aa23,
    0x8b16f851cebca736, 0xdb40ccd65bf65d10, 0xc8721aaf1c717190, 0x025ccf860fc7237c,
    0x4fc6fdbcf38d7da1, 0x9f22e57ace3cd7f6, 0x080b0af133b9e436, 0x251e7fdf99591080,
    0x9ef991ba214e6f67, 0xc1e82452c986ae59, 0x68ffffa63979c900, 0x1a25b1a6b81926e9,
    0xddcfec1ca72df25e, 0x55f101c701d32bef, 0x6151bd0b68c31399, 0x2b344bbb50400ea7,
    0x2f10838bb9ffd1e5, 0x1d01037fe223412e, 0xf9ca7ee28cc38d16, 0x1044e69af594eca5,
    0x3dbf8d02843ab2c7, 0x609bb8314bce27b0, 0x0ee3388f107ccc27, 0x1145f6f783af7d1e,
    0x6ddff0ffe3a3bc4b, 0x9d14de64a3aa2593, 0x0020318b0bbfbc9a, 0x20ed7009a6093b16,
    0xb79c229327be7627, 0xe60a6def592f423b, 0xe95c1508e1c7852f, 0x24cc5ed4ff9d84fc,
    0x53587b772f1c830c, 0x58ada1511719c769, 0xa9c0c312afe54b51, 0x1fc31b0e67cdf9ef,
    0x95b739e017081259, 0xaeccbdf7cc901553, 0x0c6d30fc804d068f, 0x1faf997032cbbadc,
    0x4fc6fdbcf38d7da1, 0x9f22e57ace3cd7f6, 0x080b0af133b9e436, 0x251e7fdf99591080,
    0x1bdecb6201d9651e, 0x13cf9adfe864613c, 0x8f9b9a41af6fbcd0, 0x1197c402e5f0a49c,
    0x2db653afc6d0deb4, 0x8e1a2184a4302012, 0x23c7d4d8a3eec4aa, 0x03025d698462f4cf,
    0xeb7a247d5a960cc9, 0x5f1910542f35c608, 0x2052ab586f804ec1, 0x0ecd1d402fafa360,
    0xb3d7f8acae6975b8, 0x2d00c62c131144f7, 0xb429d4e962cc3c2a, 0x30021619d0c0b402,
    0x4e71bad0cf34b27d, 0xde15c316aaca4772, 0x9dc4f5faf21c506c, 0x2bcd05e889bf0fcd,
    0xdb0e7085ca46b460, 0x8cd05ae8fe52e040, 0x0b40d9c1ffa06a5e, 0x1b890b4097a78190,
    0xb21ab35622242e48, 0x8cd5e5edec1b7da6, 0x4310b27946809321, 0x08081b53a974ee26,
    0x14899a4cf4be3b2a, 0x0ac611fc723e8d8a, 0xfca5b164e6c07ab4, 0x00e6632e8ec976ce,
    0x4fc6fdbcf38d7da1, 0x9f22e57ace3cd7f6, 0x080b0af133b9e436, 0x251e7fdf99591080,
    0x91e73823a82f4f76, 0xbfe259ac17f6793c, 0x6f6a851ecdb21bff, 0x063a3f8dea9d024a,
    0x9c4c0626274692a0, 0xf8e929bcdac96cc0, 0x8e75baab9990f663, 0x23b2c6ec9af5d018,
    0xe9f215658ad128cc, 0xbe01425190d50d56, 0x395c602113f1607f, 0x09a41c06730fe53d,
    0x9c01dc50d8aa1d6c, 0x6602455a71bc7e9c, 0x9345a0ffecc159e7, 0x16571048fa92024a,
    0xb507161b049eadf6, 0x2ce77bc126e4d17d, 0x878b3d3b4c74995e, 0x2a5a7e76dc76ad78,
    0xaf45607f98fb18eb, 0x89c87600727e7593, 0x85d81c1c01e3f879, 0x0a23738e129c11b2,
    0x696ebe9c2732a1ff, 0xa227e98fc3ed24e7, 0xa0922c4738e81dfb, 0x2ce8d6eeaf4d6c7c,
    0x98de2389123178a5, 0x05d28021caf5fb28, 0xcee5175f5e2a2cc2, 0x022e3bfb13d10368,
    0x4fc6fdbcf38d7da1, 0x9f22e57ace3cd7f6, 0x080b0af133b9e436, 0x251e7fdf99591080,
    0x5a976036eef8c4b7, 0xbff7d8c85d3c7b99, 0x4ee8e90ec30a1d8c, 0x066c43e71903c5b7,
    0x0821e6da8d91570a, 0xf6c2e6fb7e292884, 0x0dd3d08f4e783a5f, 0x2fe5dfcdc9335f0c,
    0x50d0228418428300, 0x67d9d71a1cb60a4f, 0x7a24c11ce718f211, 0x009accce03257f96,
    0x76b961bfbfb67291, 0x7858438a00e793fe, 0x2dc64549c505721a, 0x224e2a85316b67bf,
    0xc28af420c2ffffe0, 0x991c0d2c9360a5cf, 0x1cdb12a334509e0a, 0x29f1447b45128f5c,
    0x1a15dcc7b8b34abf, 0xeb5bec4b257a7706, 0xcb647f566ebcf2f2, 0x1301ae5665bd3e87,
    0x06019f3c9398ba4f, 0x5a6825867d0cdd2b, 0x69b1ca585c713542, 0x0fc6599ea957e02f,
    0xef323be1ba9c724e, 0xd5f5b1caa339c41a, 0x0bd87d7b0d8290dc, 0x022e91a30a945b96,
    0x4fc6fdbcf38d7da1, 0x9f22e57ace3cd7f6, 0x080b0af133b9e436, 0x251e7fdf99591080,
    0xa9233b7edddd1d24, 0xc7a8149ba9e9baec, 0xaa469e0f9a8cc3d8, 0x1c7c359c26eab655,
    0xeae3274a19cef175, 0xdb1988504765eb4a, 0x0828eaea1f252625, 0x1ddf651a5d396b68,
    0xc754574739159385, 0xc0056c2e090a90ac, 0x98d3fdd6bab09213, 0x0ab486e3e737f408,
    0x782e769fd17e0028, 0x7b45f536739fc9cc, 0x3ddd08b576951bd4, 0x0d0b817b8995913e,
    0x3a040c2acb464974, 0xaa58672f8382745e, 0x47928376fcd79dd5, 0x13471abd3a251609,
    0x6580371ee4ba38c4, 0x9a7477110d9a7fb5, 0x0296b1838e527022, 0x07bff672e50ff1f2,
    0x4386f16f7f4b32bd, 0xcb9a3bb61b07b3e3, 0xc8a0f54c3a35ad51, 0x23f91ef1b8182e80,
    0x31813e7b70607ec5, 0x5998cb5a8c15446d, 0x42e50b66557532cc, 0x16c390b3fdf09c6c,
    0x4fc6fdbcf38d7da1, 0x9f22e57ace3cd7f6, 0x080b0af133b9e436, 0x251e7fdf99591080,
    0xb5dbb89f677cd296, 0xfc03ebfb9bdb09a0, 0x60d44e46029a5b04, 0x1976d21aee74f79c,
    0xf513656eb0a0cfb2, 0x8dde68919cd991bd, 0xbc12dc72af3c8485, 0x056e7cdc08bff8d8,
    0xb7577f5d42bfa85e, 0xfdcf961215ba06f2, 0xaab7531de2f12da4, 0x22b7992d7c0ed349,
    0x366d081ab65ae95a, 0x3faba9d6458d16bd, 0x0d4e2d585ea5968b, 0x10f97fcc757a0d6d,
    0xa3884a051ac001a2, 0xeed8c95b73567fec, 0x6e65b568653a398a, 0x21bc046c3d727baf,
    0xd39ead3cdf738491, 0x2eedbb3da05cda25, 0x71723e071c989606, 0x0e757fd0b77219a7,
    0x36ea04c19cce4f4a, 0x0abf91605ba686af, 0x12f326f3d03e97d3, 0x1ed536c497ff36f6,
    0xb31e4734a679bd67, 0x4a08e5a39a468c78, 0xed6fd566034240e6, 0x2491340ecfed3f98,
    0x4fc6fdbcf38d7da1, 0x9f22e57ace3cd7f6, 0x080b0af133b9e436, 0x251e7fdf99591080,
    0x530a2e8fcb66103f, 0x3f7bd667dcaeec35, 0x32674a08616b36c3, 0x144b73c6f361a4c2,
    0x2cbf8a932144d27b, 0xfb2dab9733207304, 0x840ba5fa161cbfb2, 0x00b244143540a248,
    0x4ef7782f64ea4e12, 0x9543bbad397d7cfb, 0xf5a9dbd69f82f743, 0x0b5bedd8122560ca,
    0x0c99b4287c528a67, 0x2a88e7f871ca5d72, 0x80b28eb2735e221c, 0x1386c7e88c5c0bf8,
    0xedccbfc3d381c9ba, 0xc828f20dd7d07611, 0xb0a6d6450b56cabf, 0x277164cdc5187613,
    0x4b0f2a1657d41f13, 0x212aec4a193015b9, 0xea8f96e731dfa610, 0x016bc97ee1ac4b1c,
    0x9693b56b047b3480, 0x8a3dc80f57379add, 0xaf9951c20a6aace0, 0x0b341e4361f31734,
    0xee4ae7a153fe1dbf, 0xc0406642c669c32d, 0x2df997994261e665, 0x263a060ba49fe486,
    0x4fc6fdbcf38d7da1, 0x9f22e57ace3cd7f6, 0x080b0af133b9e436, 0x251e7fdf99591080,
    0xeeff21d1aa047eb8, 0x3424d3686d79e36f, 0xad0aacb576fd95b2, 0x0df811b70cab32c0,
    0x8d2c935a6084eced, 0xa70c0945c6759c4f, 0x7d662b4cf09e93dc, 0x00afae979e41c0cf,
    0x1131435152115e5f, 0x74b3df8236be9234, 0x3213efe9cdb60445, 0x21ae12f1dbb152c3,
    0xa37c0eab6bcbe468, 0xf7d883f9e4503ad6, 0x9f77c28ce89d58ca, 0x272fd8955a7524a0,
    0xc6d5e9dae8178fa6, 0x83f409d60d798242, 0xd23ac7beb8152268, 0x03712cabfab0f6f3,
    0x74335405c18b154f, 0xf174b3b3dbc1acd7, 0xba93dc7d00594ea2, 0x15bc41d746b14885,
    0xbb2e25b054a52962, 0xc1f1cb80938f0798, 0xbe1c1ebd2dbed077, 0x09dded6d75c33754,
    0x659d52edff60d227, 0x351d80c4ed50139a, 0x8d7ae825a6d7758e, 0x1d9fd7f273e141e4,
    0x4fc6fdbcf38d7da1, 0x9f22e57ace3cd7f6, 0x080b0af133b9e436, 0x251e7fdf99591080,
    0x3c34fe599429e1f2, 0xb5e9048c2f127322, 0xd6e0f2e3d1b6b2eb, 0x00ca2cbfed626671,
    0x784fe5cc2326fca1, 0xab36b80e4e97500d, 0x858166710da5d764, 0x1e9bb2efac004014,
    0x22dbed85bc8a8ada, 0x67f498f92bac69d6, 0xd566eb0d9096c4b2, 0x23f8af81b77d2f06,
    0xc4bbe48e8bd37811, 0x402e02d1980c3219, 0x1b3865d830809b7f, 0x11546811642965c7,
    0x28cba02adeaf9c51, 0x692de6ee063f402c, 0x1ac1e14867c05d88, 0x2b872c434320ac52,
];

/// Sparse partial-round coefficients for state width 5, elements 384 to 511.
pub const T5_S_3: [u64; 512] = [
    0x80dca53cd4ba5a94, 0x93f9a5d8db6c846d, 0x0613cd83ea35fc15, 0x1f80e8d09a04ffb2,
    0xc0a158b59684ac70, 0x194dd595e9e873e8, 0x1a2b97908f375ca0, 0x117c4e17071565b5,
    0xde3d093d476f08a4, 0xe74245d5a1e6fce5, 0x5f7cd04dd5c58f63, 0x14da94b9be3adb3c,
    0x4fc6fdbcf38d7da1, 0x9f22e57ace3cd7f6, 0x080b0af133b9e436, 0x251e7fdf99591080,
    0x848d4b654e9ce670, 0xebb0d2edb19c7b24, 0x762078d5132db23f, 0x2ac96264771dd5b1,
    0xa51e2b017dd63830, 0x9602604b15d620c7, 0xb11d0c7a1dc85c90, 0x05a23e8be5fe8e01,
    0xec0b1d27f5dd7ece, 0x8d874d83a98478cb, 0xc68ba2b30c12c581, 0x172623676d3d38b2,
    0xd1615a845481de7b, 0x1ca2d51bce083fae, 0x9691580805b89037, 0x0b632ee1e8730d50,
    0x9b46ea45749203ce, 0x5a2f5e72edd2b625, 0x73e1a095231c1090, 0x2a220ef566e4d543,
    0xc41b2708cc333dc8, 0x389357bd857cb638, 0x8298d52260b4ebae, 0x2ebf4340ee05460d,
    0x3a02b7410f7f8275, 0x6dd7545bf534adc7, 0x6d2e7906ffe4f42e, 0x27e873b175091636,
    0x4765711f3f5ad52e, 0xa39992a90447f100, 0x13ce42ff200e46df, 0x1ee70cb51ad6da45,
    0x4fc6fdbcf38d7da1, 0x9f22e57ace3cd7f6, 0x080b0af133b9e436, 0x251e7fdf99591080,
    0xbf027bcfa555f8af, 0xc6c19dfeb98d6d14, 0x4a98956e30ad0043, 0x1021282efc84669e,
    0xbe613e47274b73c3, 0x661225414a975a59, 0x77162d70faeb398d, 0x1f1c2e424bdeadd2,
    0x4b8cc4e1d50bb21b, 0xe61981cd54f6e586, 0xbf268130070e89b1, 0x1a71e415abc5ccd5,
    0xc57825067214dbb6, 0xc91f8f88b2823da7, 0xa7bd0a2c6d6105e5, 0x29799820e28bb9c0,
    0x0a1048e9515e31db, 0x07b22870afa6cb23, 0x473606c81a6bd5c8, 0x017377cb0195b95b,
    0xfc7b75935ef41251, 0x3b4117ff1fc50d09, 0x5e7bbd907ebeb855, 0x2f73cf9f22e0431d,
    0x3a4bac0ad664719c, 0xfd27fdc21b2187fe, 0x60bd31fb993e7bb3, 0x19cd57e77a993282,
    0x292c01c304012713, 0x7abede20ae3a94a0, 0x568d9197d0df40d0, 0x0d5ff1b6b5f33d6d,
    0x4fc6fdbcf38d7da1, 0x9f22e57ace3cd7f6, 0x080b0af133b9e436, 0x251e7fdf99591080,
    0x5e099d95331d61b0, 0xbaab5f59d834ba00, 0xaf0773fc0e025f86, 0x26c7615e04be2355,
    0xe6ee6c319739c2f5, 0xb8d279e4864d966c, 0xe3279f2d4990926f, 0x170ea6732c6d1b2c,
    0x772f02ba395fdc8c, 0xbc5e6ab40ff0afc1, 0xfb0b9a9d677bad1b, 0x2f870269a506f351,
    0xe5f6398aa83e97c2, 0x76e1e49f847f16ed, 0x92bd4b8d8a1b9baa, 0x11986790a1cc239c,
    0xb90eb1008219239f, 0x1d2a2c5a79ed6e5b, 0x43ff590621941b22, 0x2510c2e5a39cd6c2,
    0x7d3785333fa03dcd, 0xb8b0aa96d3d5cc9e, 0x3a7e151338699af0, 0x1ba5c05a828609b9,
    0x4fc7586b97b5fbda, 0x90010b9cb1993355, 0xdc3868ac1c47363d, 0x08648c03bd03b5f4,
    0x5be291f55d496cb7, 0xfc488697c71d9213, 0x8f66ad58d65f09e5, 0x0069d0c72c588061,
    0x4fc6fdbcf38d7da1, 0x9f22e57ace3cd7f6, 0x080b0af133b9e436, 0x251e7fdf99591080,
    0xe07c4554184f462a, 0x051b05eebff9af71, 0xd0ea47c1d56965a9, 0x091acb34aa0d03af,
    0xfefc927e17cf5336, 0x99b6e99bd23505a8, 0x6d9676fe058565eb, 0x2b3f75e8ca711877,
    0x64ee440a439fcbaa, 0x94b2400f9027ce1e, 0xdcf35384c0dce874, 0x16d9ae82c0073fe1,
    0xd84c863c322e8057, 0xa0ea671a1020278a, 0xf3027ad8f3c24fa1, 0x2a11becd9333eb48,
    0xc57214f00a6a9d90, 0x0c178e8639689aa6, 0xcffd9d3ba84aaf6a, 0x0d569be295d5e44c,
    0x0aaaa0bb44dbef48, 0xfd237aae9b62e233, 0x5eb136eccc63e2d7, 0x0a66025e45040fd4,
    0xa047b6cabdd29e42, 0x6997b68dc02065f6, 0xfd725d952d3c529b, 0x2cda68234c7e22d8,
    0xc7ea547e9ad23650, 0x5ebc81444ed12e82, 0xf56af02ced5a6b14, 0x1f9ab3e8029afc72,
    0x4fc6fdbcf38d7da1, 0x9f22e57ace3cd7f6, 0x080b0af133b9e436, 0x251e7fdf99591080,
    0x5c0b3493b73c7138, 0xdb5caf3c53a66921, 0xf5e82c2a60a008b3, 0x18a2e32bb69277e0,
    0x53be707470746fbf, 0xe5b4f412f94a1eb1, 0xd4ddc83f26ada461, 0x224c4f2e98b4fa10,
    0x9a1e7e326c4b0f4e, 0xa609e8135c0781ac, 0xadd1b123a6f6c100, 0x1b2a8787e954d981,
    0xb7beee769a058622, 0xd396d36de9f70589, 0x5dfc0b2dc9891091, 0x2da288c34f32d86d,
    0xe87b27eda7f20180, 0xb8b64dcb47674290, 0x3e0f83eb60f2d476, 0x2e24d351b0d0e94f,
    0x9508a31830dce9d7, 0x45db2c6d85382f95, 0xe82aec1ff6ee8094, 0x14af016f9da2f982,
    0xcda08824bc9cdf9e, 0xc2135b51ec4547eb, 0xa54cbad523032180, 0x091aeac9bde9ce64,
    0x6f23affd6d845dd3, 0xaa1adda97f5716d7, 0xc17f63f749b7047e, 0x0caa07eac62d9f07,
    0x4fc6fdbcf38d7da1, 0x9f22e57ace3cd7f6, 0x080b0af133b9e436, 0x251e7fdf99591080,
    0x08ad50dd2928ed42, 0x2fdccac121ca787b, 0xd7ada3e01c4bbf45, 0x0554f06e31b164d9,
    0x068390b01d176601, 0x624359067a0f6385, 0x30bf126dc420158a, 0x0bf8f8d7702b1e88,
    0xc9ac2a2887e8690c, 0x34ee29f0649af4dc, 0xe4f99bf63c065ed9, 0x1604d181baf488dc,
    0x8f172dd9bffdae43, 0xc0795cdfab82df33, 0xd4ddce72d31c8e91, 0x0ac951e2944f7532,
    0x146ed5d5a1d1e9f3, 0xfbea3b66b0c9d119, 0x2bdc3425c2b83e24, 0x24d53d9f665348c1,
    0x3a72a118f56e2da3, 0xe3e3d855852e0e11, 0xe93f2ac2e60b9909, 0x1ee01a89a7ebc6b8,
    0x763cb6c883059938, 0xc90a85956a7f2a1f, 0x231bb7c208e5b7c2, 0x2b78c3171a3c8ec6,
    0x8e2b402cc0d617e1, 0x12312494329be76c, 0x61696fc7e4a39387, 0x07ca1e306d907874,
    0x4fc6fdbcf38d7da1, 0x9f22e57ace3cd7f6, 0x080b0af133b9e436, 0x251e7fdf99591080,
    0xc04f5ef85b464784, 0x1562f6fc631bb236, 0x79ac3cefeea663f5, 0x1febc25f88aab921,
    0x470ad8ccef1b28fd, 0x15933a6bdba5c2de, 0xa34da94414fdfa44, 0x1b1b065eb60dbd39,
    0xe84d941b5f7d352a, 0x0898f34bdce41420, 0x03ac4f80c0ffb87d, 0x0060fcebd24cc085,
    0x3954c5ed496ae165, 0x3edbcb3f01105f19, 0xa66d83fc5aafab7d, 0x2a7b16d282447357,
    0xca12b11ce46678b5, 0x01217493f948bf6e, 0x6ef53921ae0436ab, 0x0ac39f59e76b9e29,
    0x7e208f9aeaedfc26, 0x8bbd93d34b0f4c63, 0x3784a8966f1f62b6, 0x090b38aaae1df187,
    0x31a7dd44b7135eb8, 0x5760143501e0f21e, 0x40ed5674747b9e3d, 0x1ba601baf813cb2d,
    0xba9ef760b7365d5d, 0x82cb7b4e161accd1, 0x9ae5ca72c1332bc8, 0x17695ec6204f1005,
    0x4fc6fdbcf38d7da1, 0x9f22e57ace3cd7f6, 0x080b0af133b9e436, 0x251e7fdf99591080,
    0x83bc737245c5a469, 0xb64d1e09e6c69fa5, 0xa78e664dc5308da0, 0x00ab5930a06bb6b9,
    0x02f97fee43bc4e2b, 0xe0e8f79c14305668, 0xfba600dc70d2790c, 0x16ab9a5de48bf089,
    0x30c5ec846f42ae5e, 0x5a5f465e15ad2679, 0x75462dfad73927bf, 0x075df7d5cdb7ccc1,
    0xa45b5092f08d48ed, 0xc28a4a2b21e3990a, 0x0279585aeaa432b5, 0x23e4a7be74d0f093,
    0xcffa1c495af98c25, 0x5227e66d74e2dc66, 0xd378279e60b276b9, 0x298795a8af97b8b3,
    0x21b1e96adc5eeda7, 0xf2c90e41cdbefc27, 0x4acd91c65906bf75, 0x133d1455b6ea278f,
    0xce55aa2ad5ff3502, 0xc72d436ed464e2b8, 0xc6a1745b71aca7ba, 0x24b722af1967cdda,
    0x634804b23acfac2b, 0xb42780c9c98a51ff, 0xf6775a537a4b04c6, 0x276cb6e59cf4a06f,
    0x4fc6fdbcf38d7da1, 0x9f22e57ace3cd7f6, 0x080b0af133b9e436, 0x251e7fdf99591080,
    0xd192de01485dce3e, 0x09d1519149139b1c, 0x0ff4d292c18632c9, 0x1044b0ed6b39096c,
    0xef8e30936ecdb03a, 0x9d7dea98e9ad2686, 0x34cb17a8cb532f88, 0x2dc918abffffceeb,
    0xbe6a280fbd4aa465, 0xcd187d2ee126fac5, 0x090ad8b3d897541e, 0x2a5030937ec5690d,
    0xcb6e4b24a8826037, 0xdbd3370aab933ccf, 0x010e0fdd445ee840, 0x016961c105f85925,
    0x640d3c5a4a3e8770, 0x79ecdfdd25a32c2a, 0x42707dfbabec1d9f, 0x17262da0f8e41b6c,
    0x172eb65951c6a345, 0xdbc6fe4f66b07a74, 0xc7c5e8cb06de7a0a, 0x059935903a135cff,
    0x05d2559a27b3bff8, 0xca4e448e60f29736, 0xfabf025e3d19db3c, 0x1ea2228bc5f09dad,
    0x64ba323f4165d5ed, 0x857a01c42c86f4e2, 0xebd3760ddc81e1f5, 0x1e35c4737f19de2d,
    0x4fc6fdbcf38d7da1, 0x9f22e57ace3cd7f6, 0x080b0af133b9e436, 0x251e7fdf99591080,
    0x9cd1e0c3a1144dd8, 0xd242ecdfbd363527, 0x058a7e29cbfe20d0, 0x05958875cfb17091,
    0x1a924387139033dd, 0xb3dcdf2c2b087073, 0xc18d2a5b03d7b58e, 0x19fd165b2741329d,
    0xdef9ad9825be5887, 0x93716d023d116356, 0x3c61577504cdc684, 0x11cea37538680120,
    0xb42c52e9205ed13a, 0xa82f7e080a0d4bc1, 0xb40e44e28ee0b017, 0x2e911408231ad83a,
    0xc1ad8ba0e51f179a, 0x540c91b59b288df6, 0x393b703a7dd94df0, 0x09d3f08c1d2cd4de,
    0xbe28c80cddb29a50, 0x8b953070c08c1ae9, 0xfb4b20ec11e083a8, 0x0d8bac92c12807a3,
    0x80c14972bc68b84e, 0x55a1009ae9ce983b, 0xadd8e7d2de8096cb, 0x22829b774491c0e3,
    0x0d15db232557c621, 0xca7e2ee2dbdb5e9a, 0xb2f534955aef3d09, 0x2aec91a87a1731f6,
    0x4fc6fdbcf38d7da1, 0x9f22e57ace3cd7f6, 0x080b0af133b9e436, 0x251e7fdf99591080,
    0xe495c62b81655f9e, 0x153fcfeca0517410, 0xfbafd7270951cfef, 0x281ec503552e6778,
    0xebee97577178bcf1, 0x4392af147ca8b528, 0x3943856c28e0dceb, 0x098a3183f2ee1897,
    0xdcd06de598c6c29e, 0x1e6d6c68e5ef3171, 0x7808b643ed37bad3, 0x0794a78e51b51af0,
    0xe9774daaea42fce9, 0x7a3bedfa233f98da, 0x1f985287e637e798, 0x214a19348cd7cc8b,
    0xa7d5a6f520683ca4, 0xa02fce56102928ce, 0x8597bda6395bd25b, 0x130acc584954a904,
    0x51b03e80aa258243, 0xd6da212a1d1ccb2a, 0xcf72d8e91f5419ff, 0x01d09e1227434a4b,
    0x4f6dc84c961b19a6, 0x7faf326271d0e2cd, 0xd83847f03dd24200, 0x127397f2b156ba00,
    0x4694f853e7197e47, 0xf17e533e8f560d84, 0xf181e0d7b26c33cf, 0x0971a3d373d35db8,
    0x4fc6fdbcf38d7da1, 0x9f22e57ace3cd7f6, 0x080b0af133b9e436, 0x251e7fdf99591080,
    0xd09d1976d9dc6dd6, 0xdcf9c781e258a2da, 0x3c1cc240ce83c44e, 0x241c8bcc463ac96e,
    0x8851092a75ae6e0e, 0x7986dcde7bfd3473, 0x99f458897aa340e5, 0x1a0b489baf0a1825,
    0xd457d596442e443e, 0xe94904a8ec4d4445, 0xfe52d15c51dbd571, 0x102c886ce6381276,
    0x88349c2eee473f6b, 0x40f122c0e5ac2025, 0xcaac00cd43dde749, 0x289f8a46d6792691,
    0x304ba62afc55f5ec, 0x594c10b0533afde3, 0xf23f809f6e431511, 0x2ed1721123242c33,
    0xace287cc20dd9e84, 0x0e772b0f817098ad, 0x90a39929af490190, 0x0c730a9beb7b64f0,
    0x2c40c27d0754b912, 0x4060ff6c4190b2a2, 0xf5049f8d9d682d6f, 0x0480eb2f48521f46,
    0x7d8f2805db1e5066, 0x763cd48de6dfe21d, 0x23ffe2c8571a8cd1, 0x221d30bbccbb39bc,
    0x4fc6fdbcf38d7da1, 0x9f22e57ace3cd7f6, 0x080b0af133b9e436, 0x251e7fdf99591080,
    0x481b730bd286cc90, 0x13527756cff255aa, 0x8fda9e07bfdae367, 0x022eff0bad54cf4f,
    0xdb851e1299b7a86e, 0xf4de6fe7456b39c5, 0xeafb522055494a1a, 0x220c6f4c23ec9272,
    0x3ccf36039de0963a, 0x3b29ac28775ff60d, 0x88dd14b1b5d6c0d2, 0x18d66b43fd01a9cc,
    0x8ecbf332eda817df, 0x43f3236c26f9f5c9, 0x671fabbb4fc31fa7, 0x1f62901537c1c56f,
    0x9842971d4a802fcc, 0x592aad667f9fc672, 0x0a3de22eab4c45bb, 0x130beece62945120,
    0xdadfd12c386f8c98, 0xac658ed6e0b3636c, 0x59adc41bc54fdb0f, 0x24411acb2c9c481c,
    0x22c190a27e7fdc43, 0xb90cbde45871f6c1, 0x52819155a8b3816f, 0x2370059923938a35,
    0xabf304500dd2da46, 0x28f2b02d79b43775, 0xdbf4a6a64692e379, 0x217ccb823582bf7e,
    0x4fc6fdbcf38d7da1, 0x9f22e57ace3cd7f6, 0x080b0af133b9e436, 0x251e7fdf99591080,
    0x6bf8a5a4f9bba3be, 0xdf8f4a58679a6149, 0x7a1c421fe42cb29b, 0x0e2be5d3f9ee7355,
    0xe54774153bdb59bf, 0xa26708623919783f, 0xbaeb172103de2bc4, 0x27639d7e461732f3,
    0xc5fb289f8c865fff, 0x47ce72625673c866, 0x551cbf624aadcec0, 0x159c005b660c7fb3,
    0xad6373316dfdaa8c, 0x3248bb96731c0921, 0x3b50c550a90580c5, 0x130d38734b549e83,
    0xcb4a2a7c31a74f39, 0x979d485b8d1b1119, 0xb6791a7b8f49c4f4, 0x13ee4afd14334602,
    0xdbeb6a7cf80a889e, 0xe588996745ac0499, 0x81a6270afc73e636, 0x2d2647b74c63579e,
    0xf630cb4c2fa59af5, 0xe0f9ae4c3d9f1e3d, 0xbe0fd5cb1c866c87, 0x1b884086fa3c4173,
];

/// Sparse partial-round coefficients for state width 5, elements 512 to 539.
pub const T5_S_4: [u64; 112] = [
    0x279e65fcce29d15d, 0xe77eb19acdcb6c84, 0xd00e76ff78815696, 0x2289328b5db5b2b2,
    0x4fc6fdbcf38d7da1, 0x9f22e57ace3cd7f6, 0x080b0af133b9e436, 0x251e7fdf99591080,
    0xa29742c31efeb4ae, 0x246d2f713df02774, 0x2c8f5b7bcc6c4106, 0x0bbd293300c70f61,
    0x61602b409252ec2b, 0x8ab18d3015a59d6a, 0xfe623652e50086d5, 0x278e2893fbb5d590,
    0x6343af34668b18c9, 0xe2b494f05269d15a, 0xb0b514cbdd469af1, 0x2fcc41f73df0c835,
    0xe345050d981b8fe0, 0xc1fecaba4c673bdc, 0xb961d42a2f57a937, 0x0378097f57525674,
    0xf8f6c71725ab9f62, 0x7f12892e13f889c4, 0xa795ce173f1889e0, 0x15a6727e6f181a5d,
    0x5d2c500842846477, 0x4c5d42f4ff94e6e7, 0xa5906c3b39ff7f65, 0x1edc3a58673d364b,
    0x8ce91131b8e1a7f8, 0x73836eb214ef95a0, 0x10fe447a5d08ab5c, 0x01aeddbe743c87ec,
    0x9b3e83a75ca386b3, 0xb65482585699c91b, 0x609d6b805b31064a, 0x286e544456f114ce,
    0x4fc6fdbcf38d7da1, 0x9f22e57ace3cd7f6, 0x080b0af133b9e436, 0x251e7fdf99591080,
    0x33052fe2cdba34cb, 0xc654a897a2c48953, 0x5f95cb08426f4285, 0x1477e88daf9348ea,
    0x831a5e6a3acbe5b5, 0xc87cf4480b055e43, 0xc937ae2e0a92a1d8, 0x0c9918bbd089bc26,
    0x30021b41532f7931, 0x4c0fbb7f9aacbe56, 0x31465682347ff86b, 0x283c24f7bedf789f,
    0x1ead3163eb5b2754, 0xdf5d387c4c5f3e11, 0x026438a4682a55c1, 0x0b1e5f0ca68bafaf,
    0x95ab55b1233b9043, 0x1a9da3cd7efc2006, 0x01ff84b99fba0731, 0x2d9da1df21f14ce4,
    0x2afb0eff5f1e2a37, 0x0a02157b6a69a17f, 0x0c03b3bed9476f58, 0x0bb61e50ddc0821f,
    0x680edba89c470e4b, 0xb0074323dfc7b36d, 0x24cfc896fdfbae88, 0x21dc1358f62ff3dc,
    0x7c7da05627ec2dc8, 0x9e4c2b892ce81b52, 0x9c26221637eb789b, 0x0dc75868b6f7e6ec,
    0x4fc6fdbcf38d7da1, 0x9f22e57ace3cd7f6, 0x080b0af133b9e436, 0x251e7fdf99591080,
    0x410ead7fbe1ef272, 0xe407d177a58fb31b, 0x4c23a757886d7e99, 0x08606e28acd8b2ee,
    0xcffe65603d81592d, 0xbb4860ef48c104dd, 0x231a8ee6b3029bcb, 0x2f70d379513ce458,
    0xecfb19f02e102669, 0xb39eaec4c63b490c, 0x64a0844985e7b45d, 0x15315ba38b9e4c7a,
    0x4e4ef3ec8454675b, 0x23f7e558bdc13f77, 0x97cde58af1536c48, 0x2a1529e4b1ca0cee,
    0x69f661b2eb74c839, 0x052903dc6609ea69, 0xc03e17c1d1dcdb02, 0x2a70b9f1d4bbccdb,
    0xa4fa8478970d401d, 0x55b91bff652ad69a, 0xdea43265306a37ed, 0x2f69a7198e1fbcc7,
    0xf1afd6c5f721f830, 0x3c3ffa4550bd2514, 0x1981e55e3e1a29a1, 0x0c3f050a6bf5af15,
    0xe2f78c2ccc2e3595, 0x7c5e55c20146259b, 0xf97c9d6186c6c3ea, 0x2a20e3a4a0e57d92,
];

/// The mixing matrix for state width 5.
pub const T5_M: [u64; 100] = [
    0x4fc6fdbcf38d7da1, 0x9f22e57ace3cd7f6, 0x080b0af133b9e436, 0x251e7fdf99591080,
    0x69f661b2eb74c839, 0x052903dc6609ea69, 0xc03e17c1d1dcdb02, 0x2a70b9f1d4bbccdb,
    0xa4fa8478970d401d, 0x55b91bff652ad69a, 0xdea43265306a37ed, 0x2f69a7198e1fbcc7,
    0xf1afd6c5f721f830, 0x3c3ffa4550bd2514, 0x1981e55e3e1a29a1, 0x0c3f050a6bf5af15,
    0xe2f78c2ccc2e3595, 0x7c5e55c20146259b, 0xf97c9d6186c6c3ea, 0x2a20e3a4a0e57d92,
    0x48550486e91c7765, 0xfe26ea9ca238d6e3, 0x47cbd3b1c17d97c7, 0x25fb50b65acf4fb0,
    0x115b8e2e991ccd7a, 0xba9f92ad8ef4b979, 0x6315a9934f1b8a1b, 0x281154651c921e74,
    0x6d6a3747594d3052, 0x67ba312b34140e71, 0xad931ab80e37bbb2, 0x001c1edd62645b73,
    0xeda7784320a1a36e, 0x8b2efe2ecd424a73, 0xfa75ba7992bd34f0, 0x0dec54e6dbf75205,
    0x403b01feb727a549, 0x701673aed820d9c4, 0xaafb1e9a5d63c0ee, 0x1049f8210566b51f,
    0x6ea1e31ed5767833, 0x6deb5325f367a455, 0x355f39ebf62f91b0, 0x293d617d7da72102,
    0xb86a894f7db36c37, 0x8ccd8fdb9ee2b45f, 0x0b53c732134efa33, 0x28c2be2f8264f95f,
    0xa7f9a4b228bfc32b, 0x39c40c603049466f, 0xce2f2c96c69663c4, 0x15b98ce93e47bc64,
    0x7cc75cf32d8136fa, 0x98364a11f4d988fb, 0x20225815034b1960, 0x1c482a25a729f5df,
    0x61b9299b82d69c8e, 0xef357a69e3e86b55, 0x68002bd9d1b96b4b, 0x02ecac687ef5b4b5,
    0x6145f14ba6d3c1c4, 0x66599e575a9b7edf, 0x960111ac25da4743, 0x104d0295ab00c85e,
    0xc4ec8fa75e530a13, 0x9b626d8cb4dc18dc, 0x6d427c890b1883bb, 0x21888041e6febd54,
    0x65051de33163cf9c, 0xcba8458b28e44d92, 0x58f65be2fbac809f, 0x12c7e2adfa524e59,
    0xb8b607ae9fd8514a, 0x0812ac2fc9a14a5f, 0x52732624e4ab9436, 0x2625ce48a7b39a42,
    0xd4ebcf11bbe1e37b, 0xbdcb6b58ba40441e, 0x6808f88c9ba903d3, 0x2d3a1aea2e6d4446,
    0x3ed5b90f2f69c977, 0x792b3813954fe9bf, 0x7dea3e336cd96a39, 0x0aaa35e2c84baf11,
    0x350d65e2cbff4941, 0xe810930e3ea4574a, 0x80195b9592d8cf2b, 0x14ddb5fada0171db,
    0x531ec2de53bbd167, 0xaf67ce79816ef468, 0x49018222e7b8922e, 0x2efc2b90d6881348,
    0x9fb9f28af710251f, 0xed7ef8e300b9a8bb, 0x86f7cd4fd710c509, 0x07f017a7ebd56dd0,
    0xc98d803bfed65e64, 0xb39c4a7a72dbb6d9, 0xc9ad171e4f35fe49, 0x14074bb14c982c81,
];

/// The matrix applied before the partial rounds, for state width 5.
pub const T5_P: [u64; 100] = [
    0x4fc6fdbcf38d7da1, 0x9f22e57ace3cd7f6, 0x080b0af133b9e436, 0x251e7fdf99591080,
    0xc296f05cfc966598, 0xd4307c5caa95633d, 0x99b8ccd568eb14a4, 0x12873658ecf188d2,
    0x5ec6d5101ea22761, 0x8c5954d00a9274ec, 0xcde2c5e6b93da401, 0x153cf8033d8e8a15,
    0xafbdfb0de80fb00e, 0x0d90c84470516671, 0xdca6f6ab15dd8e25, 0x09f15a882446823f,
    0x98add2758a2ce216, 0xb24b4ce2f69c8ec1, 0xb64c9075773bc862, 0x167c655bf6cf3e0f,
    0x48550486e91c7765, 0xfe26ea9ca238d6e3, 0x47cbd3b1c17d97c7, 0x25fb50b65acf4fb0,
    0xb5419ed73a07999f, 0xe8bb293ac176fdc5, 0x7ddb4243f839e4b7, 0x27f9160806de9ef5,
    0x110110da983ccdc2, 0x105b044b1b904d3b, 0xbc6f1d792e501939, 0x16fceedd703bbbc2,
    0xee9fc4c9115ae7ca, 0x91495cec84593a57, 0x7c0d5cb205987427, 0x2eaa925d06b6f5a7,
    0xcf45f08ceda2dc8c, 0x86115b9e6fcf4946, 0xe24f191ca7039f99, 0x279b324735fbc883,
    0x6ea1e31ed5767833, 0x6deb5325f367a455, 0x355f39ebf62f91b0, 0x293d617d7da72102,
    0x72cdb09b4a0ea0dc, 0x3a9fcab03ad25e78, 0x0f436a6b36165cd2, 0x097d71f1fd579a0d,
    0x310e34bed661337e, 0xeff6dccecbcf2ebf, 0x2d594f51c251dbf4, 0x1a9fd26611128d59,
    0xf91dd2bbb578dcc2, 0xf3be840d5f5ede01, 0x06d18573fc546b2b, 0x21eb30a57e5912ab,
    0x6d227eb008b96ced, 0x65bc57d28ac2f60e, 0x2b1e6f48759371ef, 0x13abaf72889b3137,
    0x6145f14ba6d3c1c4, 0x66599e575a9b7edf, 0x960111ac25da4743, 0x104d0295ab00c85e,
    0xd90ae4be7ec33ec9, 0x31446a51702b39a8, 0xb8b974039c6be6df, 0x19bb8abf6a012cc7,
    0x8fa091702e70b9bb, 0xcf9049de04fc775f, 0x6f06af3012f04aad, 0x11075889bc0dcc9d,
    0x16161be6a521a358, 0x9c8fcab8fffe8f2a, 0x7de338827b28d16b, 0x2e4cb25599a3dbf0,
    0x171182e158684e85, 0x05ded8ccbc968d15, 0x642e0e8671deb84d, 0x0c7a700b33fb23fc,
    0x3ed5b90f2f69c977, 0x792b3813954fe9bf, 0x7dea3e336cd96a39, 0x0aaa35e2c84baf11,
    0x06e6d0f4e20206c1, 0x099fa0a4c548df00, 0x0fab59e3c7d983a4, 0x2b5d28e8d648bffe,
    0x1bab95584b90d84a, 0xd30d1482e57c2f86, 0x8ee15bc2784c5096, 0x1a96c37c461ab8a3,
    0xfe4145002fba8e0f, 0xb8652e902142beb8, 0x3cb8b8a676592858, 0x0dbdd3171308bfcd,
    0xb01e957808d66fa7, 0x0647a0145af56b03, 0xfb8ceded7f4b3929, 0x17ac4855f295a3b8,
];

} // verus!
