use zwallet::{
    extract_nullifiers, parse_transaction, scan_transaction, transaction_contents, Network,
    ScanError,
};

const UFVK: &str = "uviewtest1w4wqdd4qw09p5hwll0u5wgl9m359nzn0z5hevyllf9ymg7a2ep7ndk5rhh4gut0gaanep78eylutxdua5unlpcpj8gvh9tjwf7r20de8074g7g6ywvawjuhuxc0hlsxezvn64cdsr49pcyzncjx5q084fcnk9qwa2hj5ae3dplstlg9yv950hgs9jjfnxvtcvu79mdrq66ajh62t5zrvp8tqkqsgh8r4xa6dr2v0mdruac46qk4hlddm58h3khmrrn8awwdm20vfxsr9n6a94vkdf3dzyfpdul558zgxg80kkgth4ghzudd7nx5gvry49sxs78l9xft0lme0llmc5pkh0a4dv4ju6xv4a2y7xh6ekrnehnyrhwcfnpsqw4qwwm3q6c8r02fnqxt9adqwuj5hyzedt9ms9sk0j35ku7j6sm6z0m2x4cesch6nhe9ln44wpw8e7nnyak0up92d6mm6dwdx4r60pyaq7k8vj0r2neqxtqmsgcrd";

/// A version 5 transaction with one Sapling spend, one Sapling output and two
/// Orchard actions.
const TX_SAPLING_ORCHARD: &str = "050000800a27a726b4d0d6c27a8f739a2d6f2c0201e152a8049e294c4d6e66b164939daffa2ef6ee6921481cdd86b3cc\
4318d9614fc820905d0453516aaca3f2498800019f33bf3a109bdd1b232b47b1646d91e1296634ebde5ccad57288b5b2\
228186e54b6968912a6381ce3dc166d56a1d62f5a8d7551db5fd9313e8c7203d996af7d41a38e01d94903d3c3e0ad336\
0c1d3710acd20b183e31d49f25c9a138f49b1a5301466b3da612149df5eda0f14f2efc5c6ac03884428a315dc91f8d7b\
492ebc57e475a4a6f26572504b192232ecb9f0c02411e52596bc5e90457e745939ffedbd121e37ec1e9dddc31b06dc95\
76a1738ef73e6ba71648913dbf75a779fdd488d83f857deecc40a98d5f2935395ee4762dd21afdbb5d47fa9a6dd984d5\
67db2857b927b7fae2db587105415d4642789d38f50b8dbcc129cab3d17d19f3355bcf73cecb8cb8a5da01307152f139\
36a270572670dc82d39026c6cb4cd4b0f7f5aa2a4f5a5341ec5dd715406f2fdd2afa733f5f641c8c21862a1bafce2609\
d9eecfa158cfb5cd79f88008e315dc7d8388e76c1782fd2795d18a763624c25fa959cc97489ce75745824b77868c5323\
9cfbdf73caec65604037314faaceb56218c6bd30f8374ac13386793f21a9fb80ad03bc0cda4a44946c00e1b1a1df0e5b\
87b5bece477a709649e950060591394812951e1fe3895b8cc3d14d2cf6556df6ed4b4ddd3d9a69f53357d7767f4f5ccb\
dbc596631277f8fecd08cb056b95e3025b9792fff7f244fc716269b926d62e9596fa825c6bf21aff9e68625a192440ea\
06828123d97884806f15fa08da52754a1095e3ff1abd5ce4fddfccfc3a6128aef784a64610a89d1a7099216d0814d3a2\
d452431c32d411ac1cce82ad0229407bbc48985675e3f874a4533f1d63a84dfa3e0f460fe2f57e34fbc75423c3737f5b\
2a0615f5722db041a3ef66fa483afd3c2e19e59444a64add6df1d963f5dd5b5010d3d025f0287c4cf19c75f33d51dddd\
ba5d657b43ee8da645443814cc7329f3e9b4e54c236c29af3923101756d9fa4bd0f7d2ddaacb6b0f86a2658e0a07a05a\
c5b950051cd24c47a88d13d659ba2a46ca1830816d09cd7646f76f716abec5de07fe9b523410806ea6f288f8736c2335\
7c85f45791e1708029d9824d90704607f387a03e49bf9836574431345a7877efaa8a08e73081ef8d62cb780ab6883a50\
a0d470190dfba10a857f82842d3825b3d6da0573d316eb160dc0b716c48fbd467f75b780149ae8808f4e68f50c0536ac\
ddf6f1aeab016b6bc1a51ed44cfab70000c7b3534201cfb1cd8dbf69b8250c18ef41294ca97993db546c1fe01f7e9c8e\
367edcf04be34a9851a7af9db6990ed83dd64af3597c04323ea51b0052ad8084a8b9da948d320dadd64f5431e61ddf65\
8d24ae67c22c8d1309131fc00fe7f235734276d38d47f1e191e00c7a1d48af046827591e9733a97fa6b679f3dc601d00\
8285edcbdae69ce8fc1be4aac00ff2711ebd931de518856878f73476f21a482ec9378365c8f7393c94e2885315eb4671\
098b79535e790fe53e29fef2b3766697ac32b4f473f468a008e72389fc03880d780cb07fcfaabe3f1a84b27db59a4a15\
3d1070689f2ccf975b2b176e1c69dbe381340ef1f98fdc4b453abda3a2bfac3069ba7f1cc50a81c2520e412fab4e5d39\
7ecf739f280d5b684533d5d29cfe7e7302ec144b4e553acfd670f77e755fc88e0677e31ba459b44e307768958fe3789d\
41c2b1ff434cb30e15914f01bc6bc2307b488d2556d7b7380ea4ffd712f6b02fe806b94569cd4059f396bf29b99d0a40\
e5e1711ca944f72d436a102fca4b97693da0b086fe9d2e7162470d02e0f05d4bec9512bfb3f38327296efaa74328b118\
c27402c70c3a90b49ad4bbc68e37c0aa7d9b3fe17799d73b841e751713a02943905aae0803fd69442eb7681ec2a05600\
054e92eed555028f21b6a155268a2dd664052528a5f8ed028f59af985ad1315c2e25aeb9d7f134e4bf478642ab96b15d\
3b3e13ce2387ac84dc0819e81260e11d392a5f06db8b5633de281a0e9c958c24060297f608af1dc51616562b1ffff6e2\
a28bab1f7772713a0a4b56fe47fb5a7b73aeee5345566ecf3e95e825f92eb469eb5d69164206a0ea1ce73bfb2a942e73\
703214d270d80534389b1a1e2bba67481eb3667d6d38254ac4b44559b4708cdd12898972a895bf0fb055cf1fb9b73029\
d6bfb27da2b5294f5cb354a894322848cc3d35b9554a5f62b44a7dcb25406e5ba07882cb6473714e77a051a7dcd29fea\
0a943785b325cdab95404fc7aed70525cddb41872cfcc214b13232edc78609753dbff930eb0dc156612b9cb434bc4b69\
3392deb87c530435312edcedc6a961133338d786c4a3e103f60110a16b1337129704bf4754ff6ba9fbe65951e610620f\
71cda8fc877625f2c5bb04cbe1228b1e886f4050afd8fe94e97d2e9e85c6bb748c0042d3249abb1342bb0eebf62058bf\
3de080d94611a3750915b5dc6c0b3899d41222bace760ee9c8818ded599e34c56d7372af1eb86852f2a732104bdb7507\
39de6c2c6e0f9eb7cb17f1942bfc9f4fd6ebb6b4cdd4da2bca26fac4578e9f543405acc7d86ff59158bd0cba3aef6f4a\
8472d144d99f8b8d1dedaa9077d4f01d4bb27bbe31d88fbefac3dcd4797563a26b1d61fcd9a464ab21ed550fe6fa0969\
5ba0b2f10eea6468cc6e20a66f826e3d14c5006f0563887f5e1289be1b2004caca8d3f34d6e84bf59c1e04619a7c23a9\
96941d889e4622a9b9b1d59d5e319094318cd405ba27b7e2c084762d31453ec4549a4d97729d033460fcf89d6494f2ff\
d789e98082ea5ce9534b3acd60fe49e37e4f666931677319ed89f85588741b3128901a93bd78e4be0225a9e2692c77c9\
69ed0176bdf9555948cbd5a332d045de6ba6bf4490adfe7444cd467a09075417fcc0062e49f008c51ad4227439c1b447\
6ccd8e97862dab7be1e8d399c05ef27c6e22ee273e15786e394c8f1be31682a30147963ac8da8d41d804258426a3f702\
89b8ad19d8de13be4eebe3bd4c8a6f55d6e0c373d456851879f5fbc282db9e134806bff71e11bc33ab75dd6ca067fb73\
a043b646a7cf39cab4928386786d2f24141ee120fdc34d6764eafc66880ee0204f53cc1167ed20b43a52dea3ca7cff8e\
f35cd8e6d7c111a68ef44bcd0c1513ad47ca61c659cc5d325b440f6b9f59aff66879bb6688fdb462af43582b983f92b5\
698b87db46e4b02dd8e81eca555a44f2f1aef11d88a0bcee76af9ad3f9c46a67062e1a9ca7ea5c014384af07219c7c0e\
e7fc7bfc7933d174650f46b4cc000190c19b44c57ae891aa86646c10a177a8626be064409931c37d9e8bdc433b7d79e0\
8a12f738a8f0dbddfef2f2657ef3e47d1b0fd11e6a13654db2854fcbff49aa0dadafec320b6ed2d4b279aee9060c1b22\
1e2eb2f13b0691c4d842406d0ec4282c9526174a09878fe8fdde33a29604e5e5e7b2a025d6650b97dbb52befb59b1d30\
a57433b0a351474444099daa371046613260cf3354cfcdada663ece824ffd7e44393886a86165ddddf2b4c41773554c8\
6995269408b11e6737a4c447586f69173446d8e48bf84cbc000a807899973eb93c5e819aad669413f8387933ad1584aa\
35e43f4ecd1e2d0407c0b1b89920ffdfdb9bea51ac95b557af71b89f903f5d9848f14fcbeb1837570f544d6359eb23fa\
f38a0822da36ce426c4a2fbeffeb0a8a2e297a9d19ba15024590e3329d9fa9261f9938a4032dd34606c9cf9f3dd33e57\
6f05cd1dd6811c6298757d77d9e810abdb226afcaa4346a6560f8932b3181fd355d5d391976183f8d99388839632d635\
4f666d09d3e5629ea19737388613d38a34fd0f6e50ee5a0cc9677177f50028c141378187bd2819403fc534f80076e938\
0cb4964d3b6b45819d3b8e9caf54f051852d671bf8c1ffde2d1510756418cb4810936aa57e6965d6fb656a760b7f19ad\
f96c173488552193b147ee58858033dac7cd0eb204c06490bbdedf5f7571acb2ebe76acef3f2a01ee987486dfe6c3f0a\
5e234c127258f97a28fb5d164a8176be946b8097d0e317287f33bf9c16f9a545409ce29b1f4273725fc0df02a04ebae1\
78b3414fb0a82d50deb09fcf4e6ee9d180ff4f56ff3bc1d3601fc2dc90d814c3256f4967d3a8d64c83fea339c51f5a8e\
5801fbb97835581b602465dee04b5922c2761b54245bec0c9eef2db97d22b2b3556cc969fbb13d06509765a52b3fac54\
b93f421bf08e18d52ddd52cc1c8ca8adfaccab7e5cc2f4573fbbf8239bb0b8aedbf8dad16282da5c9125dba1c059d0df\
8abf621078f02d6c4bc86d40845ac1d59710c45f07d585eb48b32fc0167ba256e73ca3b9311c62d1094903570519d444\
2f0200e6ad11f2452dc9ae85aec01fc56f8cbfda75a7727b75ebbd6bbffb43b63a3b1b871e40feb0db002974a3c3b1a7\
88567231bf6399ff89236981149d423802d2341a3bedb9ddcbac1fe7b6435e1479c72e7089d029e7fbbaf3cf37e9b9a6\
b776791e4c5e6fda57e8d5f14c8c35a2d270846b9dbe005cda16af4408f3ab06a916eeeb9c9594b70424a4c1d171295b\
6763b22f47f80b53ccbb904bd68fd65fbd3fbdea1035e98c21a7dba5fe1089f7d1c032f24d36835aa8815266e897ff82\
9403cfac3a715954b9b68958a0111a2c9265633ba2831a2e86b941e569d58d99c1383597fad81193c4c13151f40aedb4\
87b5c04ae3b1ddfbafa26e720099f26d5a7535aee57306fd2c4f30673cd9b698fecf32faf88f62e21c90665859dd2683\
3d21d9bc5452bd19515d3fa5c1e68bc209b9dc2a10ae6b630726a67b33603c691fafc281dd94dc9888a68c4f45155aa7\
897c045aafd9335be2e0ddcf5f586d7f6b4fe12dad9a17f5db7031";

/// A version 5 transaction with two transparent outputs and three Orchard actions.
const TX_TRANSPARENT_ORCHARD: &str = "050000800a27a726b4d0d6c257b85751235dbc100252e41e002931b45746198e5dd9571a56a7e0d423ff27989d3eb417\
ecd3c3093fb82c5658009624c53219a60cd0a8c4da367e29a71779a73032985a3d1fd03dd4d06e05566f3b84367cf0fa\
ee9b0963525200526a53acac5d82d0a602efabecef1bc70100020063977663550e760600016a00000309a89a5f40b373\
03e1816df13a9d7e20db159c9f42773a2fb023d95abb1e1cbe81c092edb230fa38ea13c5de7c0e5031a1e84daec3ebe6\
2d5f6c4abe5ce90a3fcdc3a6500c011c8a0fc03db6cc0c56cfd6543aed33ac6b7c4db783dee6b329277f96c7e90bb9b4\
7302465f375c1d3ca48e54facae0f9c2dd4d64d9046152b43634227fbe32f663bd1d90bbfa22f0e9c793477193ddcb40\
181a679eae7811323231f01f55c7ad04cfb63f7c4a3d0a2b0ffb0b05a6be055b8c94ca80bb0a1d13cd4cd69ab98304ae\
2515d5f7699d4abee5c20be609d873511012f234bd85a7eff5fb634cff2658ba6516048563095ecefb3015ee3f03ca52\
a177f261ecdc26bc089d34c6404846e9c647fcfe98cc6acdbb464f64278ad8ce9d1ae0d415bc0c05245fddaf4ebc8dc7\
03a85cb270f796ad2d937e2ac0d5e0a34821758000aa59c9d4652485294ee0ab29696b21430fa54dcfbf2b9c49d14206\
4209eeeed4d471ffc017d4e20a796b0927804c061b9f4a7091fe015ada68fd8442e01825c88dfe55cf5de38936f7ce25\
311b902ba97a3c12a95cfa1c3a591b818f60832709d9e4839e410fb36b84f3ac4f070fc35e161978259e5b8edc744d90\
919aa770bb36215128e582b59641e23852e958eb8fc3c0aa96152ba4f77f138d6a6712a3ae3226015883f81db23e583c\
869c4c71143a6fffd65e8dfdc50c99a2f1f314cdcc71359e235f1d7dc2b5f38ef7b970843163c03f9dd40a8015efdc87\
91956a3f3cedd9ea64f8efa7a0815a70381d71467817bd04ca529aede07ff60d176aed0f855a2eaea89eaeaca89358c0\
81826a0812a5bca28be1373f086dbdba7e43e203212c9fed21474ba19a055ffcc179412e893a744832298c5fe24cc6b1\
8667f49b34dfb12379267419a9cb9403d8167d8d1e91d2811a043b29243b069b37587847dc6fcddb1831bd1cc2567ca0\
33ac40f74ab6955f683b12e4e8254e4ea760d38b3f46791c5c4cb12bc7ccb0ed1865f25d601c303f81fb1fa1db48533d\
3d6b288e4d9a4dff8ec21c96f578399710c825fe7e32f93a8c0743f9ebd54cc151c7610337aebf7e9b915720a54351d4\
9ab8c22fa34998dcf583d4387361ef3ff86f50ec53f49249e4ad349603066fc9c661d69f911dfa7241c8d5792d78332e\
93db6593e593fd5d456abdac79a716fa6e3f3928a84d197086ecc27eac188ff2b71521762ad47bec08992d86850eb3ea\
13d5070807a2cb6680a249ea1c04203748daab9b0d3b3c2e9dcfe7760c79dda3c0259e7da9ccfa5fb647a5e20f3f3bc8\
66da24eade36b683a2bd7197fb672726f42008b46ad7f8abdb18117f322c57dc017b0a371f4863135b4db5a1b6e0111e\
630e23459a748833991cff71a05c4ab19dd99771582d038104b7e039a376f7acbbeadb34f945beb9d7ca0e4e3d5c5e4e\
b1d8526ebd13dacb1ba35735c6d04a4555acf4bf117626500d77b38189dd4888041225acbe3874a4c0f607fe6745f935\
5b3fa188f1d65c09f389af1b9d6232aa79447919c550f6f31fec35481cb922de2db5b4da2f81948617028e321706a3a7\
78c1938c443bb00e5b0ff06ad8ab9b1ab0c11477673f85df9561dbea45d5f9781ebe317a0710ae5461e34fe6f1b1aa9b\
4e67b14910984802c2a7e38193bc7bdc8ba3e4e3d1d933bfb580f5b3e87a2a06517051410fe1b4ff1ea0ade824f33851\
5456a57c7a916a74388ee8f1281f9ade0ae2a2613a0612c469df792b8df4cae4fc25c1cadba95a807ce61e5a5303faaf\
9e14653996b5a8adc34fd475ef1499094babaf1f3f07da9a390b1d9fc9a08327987adfe9564863fbdfa8f6b46a884158\
3099afb7870118face76347e40b6fd8cd15582ae8e23be9a0219bc3e4e4546a30d3bbbbd1686086876be0e4c859be71f\
b58f4fab3d28c0b4f7e75ad1edb7f88946fb40cfa5786a0fcba1303c8347ecee93d46d140bb5f69531d666548b109ce7\
64bead7c87bd4c876494de82db6e5073a6c94f7c099a40d7a31c4a04b69c9fccf3c7dd56f5544776c53b4df7953981d5\
5a96a6dcff9904a90842e5bafec8840c2d255bf5ad61c460f98feb82a10fa1c099f62776798236c5ca7f1e46ebdb2b14\
4d8713e56c772f2c3b860ea5b03a8854bc6e6590d63cc0ea54f10b73ba241bf74b635551a2aaca9687ac5269fd368b26\
d70a737f267685998a3f7d2637914909c746495d24c498635ef97ac66a400894c09f73488eb7cf33f6dad1666a05f91a\
d7757965c29936e7fa48d77e89ee0962f58c051d11d055fce204a562de68088a1b2648b8174cbcfc8b5b5cd077115afd\
e1783f5cdb26f7bfdf87b21b1c70dc56bf1c82857a40ca2aa236ec566912d864937aa07ddffcd377395cba616d63c0b6\
9c01fcc45391fd5b8763fb96d7ca333a127911b4ed95b00c24cb578ffab9f1116030048608cc990e74ebad5c348ad9a8\
85e907e0be5a7883c88489cb41432dac862023d46789eb7d989af779e5b8d28305d7e2124d3b55770f8c050ab25e1a46\
02eb58cf1234eae15f33bbdece27a6b12db3e4dbfd3a2bfcc9ee6ed016c0f665be8133b7dc1d86044db0f9db40fb0e9f\
8bc2e4db5382a8b4f815b4e8434ad0dfbc51a5e9b145e1596cbf4670b7e05dfdafbb0cf3ddee28d76a82428e8aba4364\
e84bac379298df2932e69bb5d045516efc33ae6cc3947ceb09ed371667212a831b5485eafce8488188ea4e27d0cdf7dd\
d348abff777f4a13bbc716b6a5944ee727965690e209b49eb962c039975f939ed5c6e4c400d887759433d3ad716da0cb\
446113c7727a64b58c3f8a0f81189f98005233a81366aee73cec85228ebcfd5ee3c3fb44db76ba243f2842b7b5fc746a\
e51b0bc4bd4fc9fd833565ea852b92b224f6990318ad8c7d9437e20e2a1f20e818f9057c5abaaa2e5c15b94945cd424c\
28a5fa385dadfe4907b274d842707db3697a5ae6c8f542e5ecc07fe47350d1014670212efe81fb7c73e8450df814ef62\
32f7490f63ccf07480f884a66eaffc28fea448d7b401cdae10e7c0c7f9a7b15331969fc8cb36396773de191931c750f6\
ce5caaf29768ebb27dacc738056a8125b4772bf87ae10a8a309b9bd655043cfc3159494368c5ab8cadb7f671e9626bd2\
63e31181a604b506a03b439a7ffe4355892477e2bdf338c62c3922f7d3c9a56c7103d911948a84b5ae2dbb16a3761add\
053a0f967e6b5bc94211b6547153267c6ee1cad0d974a71088583735e4f63d33156dadd54c2faf89114a127b97b94cc2\
a22ef303f459d04fc0b53ace5918d47ff33a558bd71a75f355fbd06bbccf4e02c3c0a4b63d0cc949801d63a64cb2d323\
73b2c7b274ab2db4682142c8b21d84c481f5ef21e4b5e3603451bf94774d0ef47f63fa6abb78d21c193cbe65b695fe67\
423c1e2d312e2776fa24ece84683e74876c55ea0369e4ea0e86494e00dde236a1689731f0a5d8203afde5c423640b81e\
4f631c981c03839f4b44c9e8030023f8b9d8178560daf975111955a2bca3423eeefc527be3a8543eb90a5ec02f35c7c6\
4b7dd59a72da0074634e01d2abf3637add77c7350f12b011b294168ec75576e47d169e3938bf6ae2aa8ff7cfba7cacb1\
f92b6e4c2497bffa9f17cad242fa9c3179c1a3aa81f7361649572c715c25a1f6cd5ace82c00ab2342b9c3cb4fffdda16\
0ca5ab9e9baf2139ef9afbe1b1f309462afce462a79bb9698e22c957c590a753a76b87e009121e06f6a1bf62a08bf435\
d92e2fffe86e2a9cbba9133a68e4aebf33c38436f2545fc2d52832d165af415b244adc5f57377deedf460aa3beb43419\
c6b082e835cee2f16f2f8767f03d9f42a84a76cb6867b2bc75baeeccafe61519cfceac5527961b324dce09335a5853a6\
b4da3e471fc1fb196f76d9b879c7200862ead18dea1f3ec9037f37b6ea289166510b475b20044d452e0f6ec3ab471615\
07d53a2dc60949f1e450c3eadaef886e6b827c5bb5ef11f4028a704fc5a9382c6b03e7d8081e07989286a0d9ce561faa\
1b6e9623d7ab71007fd277b986a048834602eaf8780f0675baae68415d3af01019b5ea480dce9362ec8d5df3e780ffa7\
2eba8a8df73c540870a839bb03910a491770e1c84b223ee9165270c4ccf6fc7075c37e6fbb14381507fa18f13953336a\
b2bedc600c615bd49927e9d7f4884e6ed3fd5e4b7c38";

fn read(hex_text: &str) -> zcash_primitives::transaction::Transaction {
    parse_transaction(hex_text, Network::TestNetwork).expect("test vector should parse")
}

#[test]
fn real_transaction_parses_and_lists_nullifiers() {
    let tx = read(TX_SAPLING_ORCHARD);
    let nfs = extract_nullifiers(&tx);
    let sapling = tx.sapling_bundle().unwrap();
    let orchard = tx.orchard_bundle().unwrap();
    assert_eq!(sapling.shielded_spends().len(), 1);
    assert_eq!(orchard.actions().len(), 2);
    assert_eq!(nfs.len(), 3);
    assert_eq!(nfs[0].pool, "sapling");
    assert_eq!(nfs[0].nullifier, hex::encode(sapling.shielded_spends()[0].nullifier().0));
    for (i, action) in orchard.actions().iter().enumerate() {
        assert_eq!(nfs[1 + i].pool, "orchard");
        assert_eq!(nfs[1 + i].nullifier, hex::encode(action.nullifier().to_bytes()));
    }
}

#[test]
fn real_transaction_scan_with_unrelated_key() {
    let tx = read(TX_SAPLING_ORCHARD);
    let r = scan_transaction(&tx, UFVK, Network::TestNetwork, None).unwrap();
    assert_eq!(r.txid, tx.txid().to_string());
    assert_eq!(r.notes.len(), 3);
    let sapling = tx.sapling_bundle().unwrap();
    assert_eq!(r.notes[0].pool, "sapling");
    assert_eq!(r.notes[0].commitment, hex::encode(sapling.shielded_outputs()[0].cmu().to_bytes()));
    let orchard = tx.orchard_bundle().unwrap();
    for (i, action) in orchard.actions().iter().enumerate() {
        let n = &r.notes[1 + i];
        assert_eq!(n.pool, "orchard");
        assert_eq!(n.output_index, i);
        assert_eq!(n.commitment, hex::encode(action.cmx().to_bytes()));
        assert_eq!(n.value, 0);
        assert!(n.nullifier.is_none() && n.memo.is_none() && n.address.is_none());
    }
    let nfs = extract_nullifiers(&tx);
    assert_eq!(r.spent_nullifiers.len(), nfs.len());
    for (a, b) in r.spent_nullifiers.iter().zip(nfs.iter()) {
        assert_eq!(a.pool, b.pool);
        assert_eq!(a.nullifier, b.nullifier);
    }
    assert_eq!(r.transparent_received, 0);
}

#[test]
fn real_transaction_transparent_outputs() {
    let tx = read(TX_TRANSPARENT_ORCHARD);
    let r = scan_transaction(&tx, UFVK, Network::MainNetwork, Some(1)).unwrap();
    let vout = &tx.transparent_bundle().unwrap().vout;
    assert_eq!(r.transparent_outputs.len(), 2);
    let mut total = 0u64;
    for (i, o) in vout.iter().enumerate() {
        assert_eq!(r.transparent_outputs[i].index, i);
        assert_eq!(r.transparent_outputs[i].value, u64::from(o.value()));
        total += u64::from(o.value());
    }
    assert_eq!(r.transparent_received, total);
    assert_eq!(r.notes.iter().filter(|n| n.pool == "orchard").count(), 3);
    let (contents, actions) = transaction_contents(&tx);
    assert!(actions.is_some());
    assert_eq!(contents.orchard_commitments.unwrap().len(), 3);
}

#[test]
fn real_transaction_key_errors() {
    let tx = read(TX_SAPLING_ORCHARD);
    assert_eq!(
        scan_transaction(&tx, "nonsense", Network::TestNetwork, None).err(),
        Some(ScanError::UnrecognizedViewingKeyFormat)
    );
    let legacy = scan_transaction(&tx, "zxviewtestsapling1qq", Network::TestNetwork, None).unwrap();
    assert_eq!(legacy.notes.len(), 1);
    assert_eq!(legacy.spent_nullifiers.len(), 3);
    let truncated = &TX_SAPLING_ORCHARD[..40];
    assert_eq!(
        parse_transaction(truncated, Network::TestNetwork).err(),
        Some(ScanError::UnknownProtocolVersion)
    );
}

#[test]
fn real_transaction_scan_with_incoming_viewing_key() {
    let params = zcash_protocol::consensus::Network::TestNetwork;
    let uivk = zcash_keys::keys::UnifiedFullViewingKey::decode(&params, UFVK)
        .unwrap()
        .to_unified_incoming_viewing_key()
        .encode(&params);
    let tx = read(TX_TRANSPARENT_ORCHARD);
    let r = scan_transaction(&tx, &uivk, Network::TestNetwork, None).unwrap();
    let orchard: Vec<_> = r.notes.iter().filter(|n| n.pool == "orchard").collect();
    assert_eq!(orchard.len(), 3);
    for n in orchard {
        assert_eq!(n.value, 0);
        assert!(n.nullifier.is_none() && n.memo.is_none() && n.address.is_none());
    }
    assert_eq!(r.transparent_outputs.len(), 2);
}
