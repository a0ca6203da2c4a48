use vstd::prelude::*;

verus! {

/// The initial subkeys of Blowfish: the fractional digits of pi, 18 words.
#[verifier::opaque]
pub open spec fn pi_p() -> Seq<u32> {
    seq![
        0x243f6a88u32, 0x85a308d3u32, 0x13198a2eu32, 0x03707344u32, 0xa4093822u32, 0x299f31d0u32,
        0x082efa98u32, 0xec4e6c89u32, 0x452821e6u32, 0x38d01377u32, 0xbe5466cfu32, 0x34e90c6cu32,
        0xc0ac29b7u32, 0xc97c50ddu32, 0x3f84d5b5u32, 0xb5470917u32, 0x9216d5d9u32, 0x8979fb1bu32,
    ]
}

/// The initial substitution boxes of Blowfish, the four boxes one after the other
/// (box `i` holds the words `256 * i .. 256 * i + 256`), continuing the digits of pi.
#[verifier::opaque]
pub open spec fn pi_s() -> Seq<u32> {
    seq![
        0xd1310ba6u32, 0x98dfb5acu32, 0x2ffd72dbu32, 0xd01adfb7u32, 0xb8e1afedu32, 0x6a267e96u32,
        0xba7c9045u32, 0xf12c7f99u32, 0x24a19947u32, 0xb3916cf7u32, 0x0801f2e2u32, 0x858efc16u32,
        0x636920d8u32, 0x71574e69u32, 0xa458fea3u32, 0xf4933d7eu32, 0x0d95748fu32, 0x728eb658u32,
        0x718bcd58u32, 0x82154aeeu32, 0x7b54a41du32, 0xc25a59b5u32, 0x9c30d539u32, 0x2af26013u32,
        0xc5d1b023u32, 0x286085f0u32, 0xca417918u32, 0xb8db38efu32, 0x8e79dcb0u32, 0x603a180eu32,
        0x6c9e0e8bu32, 0xb01e8a3eu32, 0xd71577c1u32, 0xbd314b27u32, 0x78af2fdau32, 0x55605c60u32,
        0xe65525f3u32, 0xaa55ab94u32, 0x57489862u32, 0x63e81440u32, 0x55ca396au32, 0x2aab10b6u32,
        0xb4cc5c34u32, 0x1141e8ceu32, 0xa15486afu32, 0x7c72e993u32, 0xb3ee1411u32, 0x636fbc2au32,
        0x2ba9c55du32, 0x741831f6u32, 0xce5c3e16u32, 0x9b87931eu32, 0xafd6ba33u32, 0x6c24cf5cu32,
        0x7a325381u32, 0x28958677u32, 0x3b8f4898u32, 0x6b4bb9afu32, 0xc4bfe81bu32, 0x66282193u32,
        0x61d809ccu32, 0xfb21a991u32, 0x487cac60u32, 0x5dec8032u32, 0xef845d5du32, 0xe98575b1u32,
        0xdc262302u32, 0xeb651b88u32, 0x23893e81u32, 0xd396acc5u32, 0x0f6d6ff3u32, 0x83f44239u32,
        0x2e0b4482u32, 0xa4842004u32, 0x69c8f04au32, 0x9e1f9b5eu32, 0x21c66842u32, 0xf6e96c9au32,
        0x670c9c61u32, 0xabd388f0u32, 0x6a51a0d2u32, 0xd8542f68u32, 0x960fa728u32, 0xab5133a3u32,
        0x6eef0b6cu32, 0x137a3be4u32, 0xba3bf050u32, 0x7efb2a98u32, 0xa1f1651du32, 0x39af0176u32,
        0x66ca593eu32, 0x82430e88u32, 0x8cee8619u32, 0x456f9fb4u32, 0x7d84a5c3u32, 0x3b8b5ebeu32,
        0xe06f75d8u32, 0x85c12073u32, 0x401a449fu32, 0x56c16aa6u32, 0x4ed3aa62u32, 0x363f7706u32,
        0x1bfedf72u32, 0x429b023du32, 0x37d0d724u32, 0xd00a1248u32, 0xdb0fead3u32, 0x49f1c09bu32,
        0x075372c9u32, 0x80991b7bu32, 0x25d479d8u32, 0xf6e8def7u32, 0xe3fe501au32, 0xb6794c3bu32,
        0x976ce0bdu32, 0x04c006bau32, 0xc1a94fb6u32, 0x409f60c4u32, 0x5e5c9ec2u32, 0x196a2463u32,
        0x68fb6fafu32, 0x3e6c53b5u32, 0x1339b2ebu32, 0x3b52ec6fu32, 0x6dfc511fu32, 0x9b30952cu32,
        0xcc814544u32, 0xaf5ebd09u32, 0xbee3d004u32, 0xde334afdu32, 0x660f2807u32, 0x192e4bb3u32,
        0xc0cba857u32, 0x45c8740fu32, 0xd20b5f39u32, 0xb9d3fbdbu32, 0x5579c0bdu32, 0x1a60320au32,
        0xd6a100c6u32, 0x402c7279u32, 0x679f25feu32, 0xfb1fa3ccu32, 0x8ea5e9f8u32, 0xdb3222f8u32,
        0x3c7516dfu32, 0xfd616b15u32, 0x2f501ec8u32, 0xad0552abu32, 0x323db5fau32, 0xfd238760u32,
        0x53317b48u32, 0x3e00df82u32, 0x9e5c57bbu32, 0xca6f8ca0u32, 0x1a87562eu32, 0xdf1769dbu32,
        0xd542a8f6u32, 0x287effc3u32, 0xac6732c6u32, 0x8c4f5573u32, 0x695b27b0u32, 0xbbca58c8u32,
        0xe1ffa35du32, 0xb8f011a0u32, 0x10fa3d98u32, 0xfd2183b8u32, 0x4afcb56cu32, 0x2dd1d35bu32,
        0x9a53e479u32, 0xb6f84565u32, 0xd28e49bcu32, 0x4bfb9790u32, 0xe1ddf2dau32, 0xa4cb7e33u32,
        0x62fb1341u32, 0xcee4c6e8u32, 0xef20cadau32, 0x36774c01u32, 0xd07e9efeu32, 0x2bf11fb4u32,
        0x95dbda4du32, 0xae909198u32, 0xeaad8e71u32, 0x6b93d5a0u32, 0xd08ed1d0u32, 0xafc725e0u32,
        0x8e3c5b2fu32, 0x8e7594b7u32, 0x8ff6e2fbu32, 0xf2122b64u32, 0x8888b812u32, 0x900df01cu32,
        0x4fad5ea0u32, 0x688fc31cu32, 0xd1cff191u32, 0xb3a8c1adu32, 0x2f2f2218u32, 0xbe0e1777u32,
        0xea752dfeu32, 0x8b021fa1u32, 0xe5a0cc0fu32, 0xb56f74e8u32, 0x18acf3d6u32, 0xce89e299u32,
        0xb4a84fe0u32, 0xfd13e0b7u32, 0x7cc43b81u32, 0xd2ada8d9u32, 0x165fa266u32, 0x80957705u32,
        0x93cc7314u32, 0x211a1477u32, 0xe6ad2065u32, 0x77b5fa86u32, 0xc75442f5u32, 0xfb9d35cfu32,
        0xebcdaf0cu32, 0x7b3e89a0u32, 0xd6411bd3u32, 0xae1e7e49u32, 0x00250e2du32, 0x2071b35eu32,
        0x226800bbu32, 0x57b8e0afu32, 0x2464369bu32, 0xf009b91eu32, 0x5563911du32, 0x59dfa6aau32,
        0x78c14389u32, 0xd95a537fu32, 0x207d5ba2u32, 0x02e5b9c5u32, 0x83260376u32, 0x6295cfa9u32,
        0x11c81968u32, 0x4e734a41u32, 0xb3472dcau32, 0x7b14a94au32, 0x1b510052u32, 0x9a532915u32,
        0xd60f573fu32, 0xbc9bc6e4u32, 0x2b60a476u32, 0x81e67400u32, 0x08ba6fb5u32, 0x571be91fu32,
        0xf296ec6bu32, 0x2a0dd915u32, 0xb6636521u32, 0xe7b9f9b6u32, 0xff34052eu32, 0xc5855664u32,
        0x53b02d5du32, 0xa99f8fa1u32, 0x08ba4799u32, 0x6e85076au32, 0x4b7a70e9u32, 0xb5b32944u32,
        0xdb75092eu32, 0xc4192623u32, 0xad6ea6b0u32, 0x49a7df7du32, 0x9cee60b8u32, 0x8fedb266u32,
        0xecaa8c71u32, 0x699a17ffu32, 0x5664526cu32, 0xc2b19ee1u32, 0x193602a5u32, 0x75094c29u32,
        0xa0591340u32, 0xe4183a3eu32, 0x3f54989au32, 0x5b429d65u32, 0x6b8fe4d6u32, 0x99f73fd6u32,
        0xa1d29c07u32, 0xefe830f5u32, 0x4d2d38e6u32, 0xf0255dc1u32, 0x4cdd2086u32, 0x8470eb26u32,
        0x6382e9c6u32, 0x021ecc5eu32, 0x09686b3fu32, 0x3ebaefc9u32, 0x3c971814u32, 0x6b6a70a1u32,
        0x687f3584u32, 0x52a0e286u32, 0xb79c5305u32, 0xaa500737u32, 0x3e07841cu32, 0x7fdeae5cu32,
        0x8e7d44ecu32, 0x5716f2b8u32, 0xb03ada37u32, 0xf0500c0du32, 0xf01c1f04u32, 0x0200b3ffu32,
        0xae0cf51au32, 0x3cb574b2u32, 0x25837a58u32, 0xdc0921bdu32, 0xd19113f9u32, 0x7ca92ff6u32,
        0x94324773u32, 0x22f54701u32, 0x3ae5e581u32, 0x37c2dadcu32, 0xc8b57634u32, 0x9af3dda7u32,
        0xa9446146u32, 0x0fd0030eu32, 0xecc8c73eu32, 0xa4751e41u32, 0xe238cd99u32, 0x3bea0e2fu32,
        0x3280bba1u32, 0x183eb331u32, 0x4e548b38u32, 0x4f6db908u32, 0x6f420d03u32, 0xf60a04bfu32,
        0x2cb81290u32, 0x24977c79u32, 0x5679b072u32, 0xbcaf89afu32, 0xde9a771fu32, 0xd9930810u32,
        0xb38bae12u32, 0xdccf3f2eu32, 0x5512721fu32, 0x2e6b7124u32, 0x501adde6u32, 0x9f84cd87u32,
        0x7a584718u32, 0x7408da17u32, 0xbc9f9abcu32, 0xe94b7d8cu32, 0xec7aec3au32, 0xdb851dfau32,
        0x63094366u32, 0xc464c3d2u32, 0xef1c1847u32, 0x3215d908u32, 0xdd433b37u32, 0x24c2ba16u32,
        0x12a14d43u32, 0x2a65c451u32, 0x50940002u32, 0x133ae4ddu32, 0x71dff89eu32, 0x10314e55u32,
        0x81ac77d6u32, 0x5f11199bu32, 0x043556f1u32, 0xd7a3c76bu32, 0x3c11183bu32, 0x5924a509u32,
        0xf28fe6edu32, 0x97f1fbfau32, 0x9ebabf2cu32, 0x1e153c6eu32, 0x86e34570u32, 0xeae96fb1u32,
        0x860e5e0au32, 0x5a3e2ab3u32, 0x771fe71cu32, 0x4e3d06fau32, 0x2965dcb9u32, 0x99e71d0fu32,
        0x803e89d6u32, 0x5266c825u32, 0x2e4cc978u32, 0x9c10b36au32, 0xc6150ebau32, 0x94e2ea78u32,
        0xa5fc3c53u32, 0x1e0a2df4u32, 0xf2f74ea7u32, 0x361d2b3du32, 0x1939260fu32, 0x19c27960u32,
        0x5223a708u32, 0xf71312b6u32, 0xebadfe6eu32, 0xeac31f66u32, 0xe3bc4595u32, 0xa67bc883u32,
        0xb17f37d1u32, 0x018cff28u32, 0xc332ddefu32, 0xbe6c5aa5u32, 0x65582185u32, 0x68ab9802u32,
        0xeecea50fu32, 0xdb2f953bu32, 0x2aef7dadu32, 0x5b6e2f84u32, 0x1521b628u32, 0x29076170u32,
        0xecdd4775u32, 0x619f1510u32, 0x13cca830u32, 0xeb61bd96u32, 0x0334fe1eu32, 0xaa0363cfu32,
        0xb5735c90u32, 0x4c70a239u32, 0xd59e9e0bu32, 0xcbaade14u32, 0xeecc86bcu32, 0x60622ca7u32,
        0x9cab5cabu32, 0xb2f3846eu32, 0x648b1eafu32, 0x19bdf0cau32, 0xa02369b9u32, 0x655abb50u32,
        0x40685a32u32, 0x3c2ab4b3u32, 0x319ee9d5u32, 0xc021b8f7u32, 0x9b540b19u32, 0x875fa099u32,
        0x95f7997eu32, 0x623d7da8u32, 0xf837889au32, 0x97e32d77u32, 0x11ed935fu32, 0x16681281u32,
        0x0e358829u32, 0xc7e61fd6u32, 0x96dedfa1u32, 0x7858ba99u32, 0x57f584a5u32, 0x1b227263u32,
        0x9b83c3ffu32, 0x1ac24696u32, 0xcdb30aebu32, 0x532e3054u32, 0x8fd948e4u32, 0x6dbc3128u32,
        0x58ebf2efu32, 0x34c6ffeau32, 0xfe28ed61u32, 0xee7c3c73u32, 0x5d4a14d9u32, 0xe864b7e3u32,
        0x42105d14u32, 0x203e13e0u32, 0x45eee2b6u32, 0xa3aaabeau32, 0xdb6c4f15u32, 0xfacb4fd0u32,
        0xc742f442u32, 0xef6abbb5u32, 0x654f3b1du32, 0x41cd2105u32, 0xd81e799eu32, 0x86854dc7u32,
        0xe44b476au32, 0x3d816250u32, 0xcf62a1f2u32, 0x5b8d2646u32, 0xfc8883a0u32, 0xc1c7b6a3u32,
        0x7f1524c3u32, 0x69cb7492u32, 0x47848a0bu32, 0x5692b285u32, 0x095bbf00u32, 0xad19489du32,
        0x1462b174u32, 0x23820e00u32, 0x58428d2au32, 0x0c55f5eau32, 0x1dadf43eu32, 0x233f7061u32,
        0x3372f092u32, 0x8d937e41u32, 0xd65fecf1u32, 0x6c223bdbu32, 0x7cde3759u32, 0xcbee7460u32,
        0x4085f2a7u32, 0xce77326eu32, 0xa6078084u32, 0x19f8509eu32, 0xe8efd855u32, 0x61d99735u32,
        0xa969a7aau32, 0xc50c06c2u32, 0x5a04abfcu32, 0x800bcadcu32, 0x9e447a2eu32, 0xc3453484u32,
        0xfdd56705u32, 0x0e1e9ec9u32, 0xdb73dbd3u32, 0x105588cdu32, 0x675fda79u32, 0xe3674340u32,
        0xc5c43465u32, 0x713e38d8u32, 0x3d28f89eu32, 0xf16dff20u32, 0x153e21e7u32, 0x8fb03d4au32,
        0xe6e39f2bu32, 0xdb83adf7u32, 0xe93d5a68u32, 0x948140f7u32, 0xf64c261cu32, 0x94692934u32,
        0x411520f7u32, 0x7602d4f7u32, 0xbcf46b2eu32, 0xd4a20068u32, 0xd4082471u32, 0x3320f46au32,
        0x43b7d4b7u32, 0x500061afu32, 0x1e39f62eu32, 0x97244546u32, 0x14214f74u32, 0xbf8b8840u32,
        0x4d95fc1du32, 0x96b591afu32, 0x70f4ddd3u32, 0x66a02f45u32, 0xbfbc09ecu32, 0x03bd9785u32,
        0x7fac6dd0u32, 0x31cb8504u32, 0x96eb27b3u32, 0x55fd3941u32, 0xda2547e6u32, 0xabca0a9au32,
        0x28507825u32, 0x530429f4u32, 0x0a2c86dau32, 0xe9b66dfbu32, 0x68dc1462u32, 0xd7486900u32,
        0x680ec0a4u32, 0x27a18deeu32, 0x4f3ffea2u32, 0xe887ad8cu32, 0xb58ce006u32, 0x7af4d6b6u32,
        0xaace1e7cu32, 0xd3375fecu32, 0xce78a399u32, 0x406b2a42u32, 0x20fe9e35u32, 0xd9f385b9u32,
        0xee39d7abu32, 0x3b124e8bu32, 0x1dc9faf7u32, 0x4b6d1856u32, 0x26a36631u32, 0xeae397b2u32,
        0x3a6efa74u32, 0xdd5b4332u32, 0x6841e7f7u32, 0xca7820fbu32, 0xfb0af54eu32, 0xd8feb397u32,
        0x454056acu32, 0xba489527u32, 0x55533a3au32, 0x20838d87u32, 0xfe6ba9b7u32, 0xd096954bu32,
        0x55a867bcu32, 0xa1159a58u32, 0xcca92963u32, 0x99e1db33u32, 0xa62a4a56u32, 0x3f3125f9u32,
        0x5ef47e1cu32, 0x9029317cu32, 0xfdf8e802u32, 0x04272f70u32, 0x80bb155cu32, 0x05282ce3u32,
        0x95c11548u32, 0xe4c66d22u32, 0x48c1133fu32, 0xc70f86dcu32, 0x07f9c9eeu32, 0x41041f0fu32,
        0x404779a4u32, 0x5d886e17u32, 0x325f51ebu32, 0xd59bc0d1u32, 0xf2bcc18fu32, 0x41113564u32,
        0x257b7834u32, 0x602a9c60u32, 0xdff8e8a3u32, 0x1f636c1bu32, 0x0e12b4c2u32, 0x02e1329eu32,
        0xaf664fd1u32, 0xcad18115u32, 0x6b2395e0u32, 0x333e92e1u32, 0x3b240b62u32, 0xeebeb922u32,
        0x85b2a20eu32, 0xe6ba0d99u32, 0xde720c8cu32, 0x2da2f728u32, 0xd0127845u32, 0x95b794fdu32,
        0x647d0862u32, 0xe7ccf5f0u32, 0x5449a36fu32, 0x877d48fau32, 0xc39dfd27u32, 0xf33e8d1eu32,
        0x0a476341u32, 0x992eff74u32, 0x3a6f6eabu32, 0xf4f8fd37u32, 0xa812dc60u32, 0xa1ebddf8u32,
        0x991be14cu32, 0xdb6e6b0du32, 0xc67b5510u32, 0x6d672c37u32, 0x2765d43bu32, 0xdcd0e804u32,
        0xf1290dc7u32, 0xcc00ffa3u32, 0xb5390f92u32, 0x690fed0bu32, 0x667b9ffbu32, 0xcedb7d9cu32,
        0xa091cf0bu32, 0xd9155ea3u32, 0xbb132f88u32, 0x515bad24u32, 0x7b9479bfu32, 0x763bd6ebu32,
        0x37392eb3u32, 0xcc115979u32, 0x8026e297u32, 0xf42e312du32, 0x6842ada7u32, 0xc66a2b3bu32,
        0x12754cccu32, 0x782ef11cu32, 0x6a124237u32, 0xb79251e7u32, 0x06a1bbe6u32, 0x4bfb6350u32,
        0x1a6b1018u32, 0x11caedfau32, 0x3d25bdd8u32, 0xe2e1c3c9u32, 0x44421659u32, 0x0a121386u32,
        0xd90cec6eu32, 0xd5abea2au32, 0x64af674eu32, 0xda86a85fu32, 0xbebfe988u32, 0x64e4c3feu32,
        0x9dbc8057u32, 0xf0f7c086u32, 0x60787bf8u32, 0x6003604du32, 0xd1fd8346u32, 0xf6381fb0u32,
        0x7745ae04u32, 0xd736fcccu32, 0x83426b33u32, 0xf01eab71u32, 0xb0804187u32, 0x3c005e5fu32,
        0x77a057beu32, 0xbde8ae24u32, 0x55464299u32, 0xbf582e61u32, 0x4e58f48fu32, 0xf2ddfda2u32,
        0xf474ef38u32, 0x8789bdc2u32, 0x5366f9c3u32, 0xc8b38e74u32, 0xb475f255u32, 0x46fcd9b9u32,
        0x7aeb2661u32, 0x8b1ddf84u32, 0x846a0e79u32, 0x915f95e2u32, 0x466e598eu32, 0x20b45770u32,
        0x8cd55591u32, 0xc902de4cu32, 0xb90bace1u32, 0xbb8205d0u32, 0x11a86248u32, 0x7574a99eu32,
        0xb77f19b6u32, 0xe0a9dc09u32, 0x662d09a1u32, 0xc4324633u32, 0xe85a1f02u32, 0x09f0be8cu32,
        0x4a99a025u32, 0x1d6efe10u32, 0x1ab93d1du32, 0x0ba5a4dfu32, 0xa186f20fu32, 0x2868f169u32,
        0xdcb7da83u32, 0x573906feu32, 0xa1e2ce9bu32, 0x4fcd7f52u32, 0x50115e01u32, 0xa70683fau32,
        0xa002b5c4u32, 0x0de6d027u32, 0x9af88c27u32, 0x773f8641u32, 0xc3604c06u32, 0x61a806b5u32,
        0xf0177a28u32, 0xc0f586e0u32, 0x006058aau32, 0x30dc7d62u32, 0x11e69ed7u32, 0x2338ea63u32,
        0x53c2dd94u32, 0xc2c21634u32, 0xbbcbee56u32, 0x90bcb6deu32, 0xebfc7da1u32, 0xce591d76u32,
        0x6f05e409u32, 0x4b7c0188u32, 0x39720a3du32, 0x7c927c24u32, 0x86e3725fu32, 0x724d9db9u32,
        0x1ac15bb4u32, 0xd39eb8fcu32, 0xed545578u32, 0x08fca5b5u32, 0xd83d7cd3u32, 0x4dad0fc4u32,
        0x1e50ef5eu32, 0xb161e6f8u32, 0xa28514d9u32, 0x6c51133cu32, 0x6fd5c7e7u32, 0x56e14ec4u32,
        0x362abfceu32, 0xddc6c837u32, 0xd79a3234u32, 0x92638212u32, 0x670efa8eu32, 0x406000e0u32,
        0x3a39ce37u32, 0xd3faf5cfu32, 0xabc27737u32, 0x5ac52d1bu32, 0x5cb0679eu32, 0x4fa33742u32,
        0xd3822740u32, 0x99bc9bbeu32, 0xd5118e9du32, 0xbf0f7315u32, 0xd62d1c7eu32, 0xc700c47bu32,
        0xb78c1b6bu32, 0x21a19045u32, 0xb26eb1beu32, 0x6a366eb4u32, 0x5748ab2fu32, 0xbc946e79u32,
        0xc6a376d2u32, 0x6549c2c8u32, 0x530ff8eeu32, 0x468dde7du32, 0xd5730a1du32, 0x4cd04dc6u32,
        0x2939bbdbu32, 0xa9ba4650u32, 0xac9526e8u32, 0xbe5ee304u32, 0xa1fad5f0u32, 0x6a2d519au32,
        0x63ef8ce2u32, 0x9a86ee22u32, 0xc089c2b8u32, 0x43242ef6u32, 0xa51e03aau32, 0x9cf2d0a4u32,
        0x83c061bau32, 0x9be96a4du32, 0x8fe51550u32, 0xba645bd6u32, 0x2826a2f9u32, 0xa73a3ae1u32,
        0x4ba99586u32, 0xef5562e9u32, 0xc72fefd3u32, 0xf752f7dau32, 0x3f046f69u32, 0x77fa0a59u32,
        0x80e4a915u32, 0x87b08601u32, 0x9b09e6adu32, 0x3b3ee593u32, 0xe990fd5au32, 0x9e34d797u32,
        0x2cf0b7d9u32, 0x022b8b51u32, 0x96d5ac3au32, 0x017da67du32, 0xd1cf3ed6u32, 0x7c7d2d28u32,
        0x1f9f25cfu32, 0xadf2b89bu32, 0x5ad6b472u32, 0x5a88f54cu32, 0xe029ac71u32, 0xe019a5e6u32,
        0x47b0acfdu32, 0xed93fa9bu32, 0xe8d3c48du32, 0x283b57ccu32, 0xf8d56629u32, 0x79132e28u32,
        0x785f0191u32, 0xed756055u32, 0xf7960e44u32, 0xe3d35e8cu32, 0x15056dd4u32, 0x88f46dbau32,
        0x03a16125u32, 0x0564f0bdu32, 0xc3eb9e15u32, 0x3c9057a2u32, 0x97271aecu32, 0xa93a072au32,
        0x1b3f6d9bu32, 0x1e6321f5u32, 0xf59c66fbu32, 0x26dcf319u32, 0x7533d928u32, 0xb155fdf5u32,
        0x03563482u32, 0x8aba3cbbu32, 0x28517711u32, 0xc20ad9f8u32, 0xabcc5167u32, 0xccad925fu32,
        0x4de81751u32, 0x3830dc8eu32, 0x379d5862u32, 0x9320f991u32, 0xea7a90c2u32, 0xfb3e7bceu32,
        0x5121ce64u32, 0x774fbe32u32, 0xa8b6e37eu32, 0xc3293d46u32, 0x48de5369u32, 0x6413e680u32,
        0xa2ae0810u32, 0xdd6db224u32, 0x69852dfdu32, 0x09072166u32, 0xb39a460au32, 0x6445c0ddu32,
        0x586cdecfu32, 0x1c20c8aeu32, 0x5bbef7ddu32, 0x1b588d40u32, 0xccd2017fu32, 0x6bb4e3bbu32,
        0xdda26a7eu32, 0x3a59ff45u32, 0x3e350a44u32, 0xbcb4cdd5u32, 0x72eacea8u32, 0xfa6484bbu32,
        0x8d6612aeu32, 0xbf3c6f47u32, 0xd29be463u32, 0x542f5d9eu32, 0xaec2771bu32, 0xf64e6370u32,
        0x740e0d8du32, 0xe75b1357u32, 0xf8721671u32, 0xaf537d5du32, 0x4040cb08u32, 0x4eb4e2ccu32,
        0x34d2466au32, 0x0115af84u32, 0xe1b00428u32, 0x95983a1du32, 0x06b89fb4u32, 0xce6ea048u32,
        0x6f3f3b82u32, 0x3520ab82u32, 0x011a1d4bu32, 0x277227f8u32, 0x611560b1u32, 0xe7933fdcu32,
        0xbb3a792bu32, 0x344525bdu32, 0xa08839e1u32, 0x51ce794bu32, 0x2f32c9b7u32, 0xa01fbac9u32,
        0xe01cc87eu32, 0xbcc7d1f6u32, 0xcf0111c3u32, 0xa1e8aac7u32, 0x1a908749u32, 0xd44fbd9au32,
        0xd0dadecbu32, 0xd50ada38u32, 0x0339c32au32, 0xc6913667u32, 0x8df9317cu32, 0xe0b12b4fu32,
        0xf79e59b7u32, 0x43f5bb3au32, 0xf2d519ffu32, 0x27d9459cu32, 0xbf97222cu32, 0x15e6fc2au32,
        0x0f91fc71u32, 0x9b941525u32, 0xfae59361u32, 0xceb69cebu32, 0xc2a86459u32, 0x12baa8d1u32,
        0xb6c1075eu32, 0xe3056a0cu32, 0x10d25065u32, 0xcb03a442u32, 0xe0ec6e0eu32, 0x1698db3bu32,
        0x4c98a0beu32, 0x3278e964u32, 0x9f1f9532u32, 0xe0d392dfu32, 0xd3a0342bu32, 0x8971f21eu32,
        0x1b0a7441u32, 0x4ba3348cu32, 0xc5be7120u32, 0xc37632d8u32, 0xdf359f8du32, 0x9b992f2eu32,
        0xe60b6f47u32, 0x0fe3f11du32, 0xe54cda54u32, 0x1edad891u32, 0xce6279cfu32, 0xcd3e7e6fu32,
        0x1618b166u32, 0xfd2c1d05u32, 0x848fd2c5u32, 0xf6fb2299u32, 0xf523f357u32, 0xa6327623u32,
        0x93a83531u32, 0x56cccd02u32, 0xacf08162u32, 0x5a75ebb5u32, 0x6e163697u32, 0x88d273ccu32,
        0xde966292u32, 0x81b949d0u32, 0x4c50901bu32, 0x71c65614u32, 0xe6c6c7bdu32, 0x327a140au32,
        0x45e1d006u32, 0xc3f27b9au32, 0xc9aa53fdu32, 0x62a80f00u32, 0xbb25bfe2u32, 0x35bdd2f6u32,
        0x71126905u32, 0xb2040222u32, 0xb6cbcf7cu32, 0xcd769c2bu32, 0x53113ec0u32, 0x1640e3d3u32,
        0x38abbd60u32, 0x2547adf0u32, 0xba38209cu32, 0xf746ce76u32, 0x77afa1c5u32, 0x20756060u32,
        0x85cbfe4eu32, 0x8ae88dd8u32, 0x7aaaf9b0u32, 0x4cf9aa7eu32, 0x1948c25cu32, 0x02fb8a8cu32,
        0x01c36ae4u32, 0xd6ebe1f9u32, 0x90d4f869u32, 0xa65cdea0u32, 0x3f09252du32, 0xc208e69fu32,
        0xb74e6132u32, 0xce77e25bu32, 0x578fdfe3u32, 0x3ac372e6u32,
    ]
}

/// A fresh copy of the initial subkeys.
pub fn pi_p_table() -> (v: Vec<u32>)
    ensures
        v@ == pi_p(),
        v@.len() == 18,
{
    let v: Vec<u32> = vec![
        0x243f6a88u32, 0x85a308d3u32, 0x13198a2eu32, 0x03707344u32, 0xa4093822u32, 0x299f31d0u32,
        0x082efa98u32, 0xec4e6c89u32, 0x452821e6u32, 0x38d01377u32, 0xbe5466cfu32, 0x34e90c6cu32,
        0xc0ac29b7u32, 0xc97c50ddu32, 0x3f84d5b5u32, 0xb5470917u32, 0x9216d5d9u32, 0x8979fb1bu32,
    ];
    assert(v@ == pi_p()) by {
        reveal(pi_p);
    }
    v
}

/// A fresh copy of the initial substitution boxes.
pub fn pi_s_table() -> (v: Vec<u32>)
    ensures
        v@ == pi_s(),
        v@.len() == 1024,
{
    let v: Vec<u32> = vec![
        0xd1310ba6u32, 0x98dfb5acu32, 0x2ffd72dbu32, 0xd01adfb7u32, 0xb8e1afedu32, 0x6a267e96u32,
        0xba7c9045u32, 0xf12c7f99u32, 0x24a19947u32, 0xb3916cf7u32, 0x0801f2e2u32, 0x858efc16u32,
        0x636920d8u32, 0x71574e69u32, 0xa458fea3u32, 0xf4933d7eu32, 0x0d95748fu32, 0x728eb658u32,
        0x718bcd58u32, 0x82154aeeu32, 0x7b54a41du32, 0xc25a59b5u32, 0x9c30d539u32, 0x2af26013u32,
        0xc5d1b023u32, 0x286085f0u32, 0xca417918u32, 0xb8db38efu32, 0x8e79dcb0u32, 0x603a180eu32,
        0x6c9e0e8bu32, 0xb01e8a3eu32, 0xd71577c1u32, 0xbd314b27u32, 0x78af2fdau32, 0x55605c60u32,
        0xe65525f3u32, 0xaa55ab94u32, 0x57489862u32, 0x63e81440u32, 0x55ca396au32, 0x2aab10b6u32,
        0xb4cc5c34u32, 0x1141e8ceu32, 0xa15486afu32, 0x7c72e993u32, 0xb3ee1411u32, 0x636fbc2au32,
        0x2ba9c55du32, 0x741831f6u32, 0xce5c3e16u32, 0x9b87931eu32, 0xafd6ba33u32, 0x6c24cf5cu32,
        0x7a325381u32, 0x28958677u32, 0x3b8f4898u32, 0x6b4bb9afu32, 0xc4bfe81bu32, 0x66282193u32,
        0x61d809ccu32, 0xfb21a991u32, 0x487cac60u32, 0x5dec8032u32, 0xef845d5du32, 0xe98575b1u32,
        0xdc262302u32, 0xeb651b88u32, 0x23893e81u32, 0xd396acc5u32, 0x0f6d6ff3u32, 0x83f44239u32,
        0x2e0b4482u32, 0xa4842004u32, 0x69c8f04au32, 0x9e1f9b5eu32, 0x21c66842u32, 0xf6e96c9au32,
        0x670c9c61u32, 0xabd388f0u32, 0x6a51a0d2u32, 0xd8542f68u32, 0x960fa728u32, 0xab5133a3u32,
        0x6eef0b6cu32, 0x137a3be4u32, 0xba3bf050u32, 0x7efb2a98u32, 0xa1f1651du32, 0x39af0176u32,
        0x66ca593eu32, 0x82430e88u32, 0x8cee8619u32, 0x456f9fb4u32, 0x7d84a5c3u32, 0x3b8b5ebeu32,
        0xe06f75d8u32, 0x85c12073u32, 0x401a449fu32, 0x56c16aa6u32, 0x4ed3aa62u32, 0x363f7706u32,
        0x1bfedf72u32, 0x429b023du32, 0x37d0d724u32, 0xd00a1248u32, 0xdb0fead3u32, 0x49f1c09bu32,
        0x075372c9u32, 0x80991b7bu32, 0x25d479d8u32, 0xf6e8def7u32, 0xe3fe501au32, 0xb6794c3bu32,
        0x976ce0bdu32, 0x04c006bau32, 0xc1a94fb6u32, 0x409f60c4u32, 0x5e5c9ec2u32, 0x196a2463u32,
        0x68fb6fafu32, 0x3e6c53b5u32, 0x1339b2ebu32, 0x3b52ec6fu32, 0x6dfc511fu32, 0x9b30952cu32,
        0xcc814544u32, 0xaf5ebd09u32, 0xbee3d004u32, 0xde334afdu32, 0x660f2807u32, 0x192e4bb3u32,
        0xc0cba857u32, 0x45c8740fu32, 0xd20b5f39u32, 0xb9d3fbdbu32, 0x5579c0bdu32, 0x1a60320au32,
        0xd6a100c6u32, 0x402c7279u32, 0x679f25feu32, 0xfb1fa3ccu32, 0x8ea5e9f8u32, 0xdb3222f8u32,
        0x3c7516dfu32, 0xfd616b15u32, 0x2f501ec8u32, 0xad0552abu32, 0x323db5fau32, 0xfd238760u32,
        0x53317b48u32, 0x3e00df82u32, 0x9e5c57bbu32, 0xca6f8ca0u32, 0x1a87562eu32, 0xdf1769dbu32,
        0xd542a8f6u32, 0x287effc3u32, 0xac6732c6u32, 0x8c4f5573u32, 0x695b27b0u32, 0xbbca58c8u32,
        0xe1ffa35du32, 0xb8f011a0u32, 0x10fa3d98u32, 0xfd2183b8u32, 0x4afcb56cu32, 0x2dd1d35bu32,
        0x9a53e479u32, 0xb6f84565u32, 0xd28e49bcu32, 0x4bfb9790u32, 0xe1ddf2dau32, 0xa4cb7e33u32,
        0x62fb1341u32, 0xcee4c6e8u32, 0xef20cadau32, 0x36774c01u32, 0xd07e9efeu32, 0x2bf11fb4u32,
        0x95dbda4du32, 0xae909198u32, 0xeaad8e71u32, 0x6b93d5a0u32, 0xd08ed1d0u32, 0xafc725e0u32,
        0x8e3c5b2fu32, 0x8e7594b7u32, 0x8ff6e2fbu32, 0xf2122b64u32, 0x8888b812u32, 0x900df01cu32,
        0x4fad5ea0u32, 0x688fc31cu32, 0xd1cff191u32, 0xb3a8c1adu32, 0x2f2f2218u32, 0xbe0e1777u32,
        0xea752dfeu32, 0x8b021fa1u32, 0xe5a0cc0fu32, 0xb56f74e8u32, 0x18acf3d6u32, 0xce89e299u32,
        0xb4a84fe0u32, 0xfd13e0b7u32, 0x7cc43b81u32, 0xd2ada8d9u32, 0x165fa266u32, 0x80957705u32,
        0x93cc7314u32, 0x211a1477u32, 0xe6ad2065u32, 0x77b5fa86u32, 0xc75442f5u32, 0xfb9d35cfu32,
        0xebcdaf0cu32, 0x7b3e89a0u32, 0xd6411bd3u32, 0xae1e7e49u32, 0x00250e2du32, 0x2071b35eu32,
        0x226800bbu32, 0x57b8e0afu32, 0x2464369bu32, 0xf009b91eu32, 0x5563911du32, 0x59dfa6aau32,
        0x78c14389u32, 0xd95a537fu32, 0x207d5ba2u32, 0x02e5b9c5u32, 0x83260376u32, 0x6295cfa9u32,
        0x11c81968u32, 0x4e734a41u32, 0xb3472dcau32, 0x7b14a94au32, 0x1b510052u32, 0x9a532915u32,
        0xd60f573fu32, 0xbc9bc6e4u32, 0x2b60a476u32, 0x81e67400u32, 0x08ba6fb5u32, 0x571be91fu32,
        0xf296ec6bu32, 0x2a0dd915u32, 0xb6636521u32, 0xe7b9f9b6u32, 0xff34052eu32, 0xc5855664u32,
        0x53b02d5du32, 0xa99f8fa1u32, 0x08ba4799u32, 0x6e85076au32, 0x4b7a70e9u32, 0xb5b32944u32,
        0xdb75092eu32, 0xc4192623u32, 0xad6ea6b0u32, 0x49a7df7du32, 0x9cee60b8u32, 0x8fedb266u32,
        0xecaa8c71u32, 0x699a17ffu32, 0x5664526cu32, 0xc2b19ee1u32, 0x193602a5u32, 0x75094c29u32,
        0xa0591340u32, 0xe4183a3eu32, 0x3f54989au32, 0x5b429d65u32, 0x6b8fe4d6u32, 0x99f73fd6u32,
        0xa1d29c07u32, 0xefe830f5u32, 0x4d2d38e6u32, 0xf0255dc1u32, 0x4cdd2086u32, 0x8470eb26u32,
        0x6382e9c6u32, 0x021ecc5eu32, 0x09686b3fu32, 0x3ebaefc9u32, 0x3c971814u32, 0x6b6a70a1u32,
        0x687f3584u32, 0x52a0e286u32, 0xb79c5305u32, 0xaa500737u32, 0x3e07841cu32, 0x7fdeae5cu32,
        0x8e7d44ecu32, 0x5716f2b8u32, 0xb03ada37u32, 0xf0500c0du32, 0xf01c1f04u32, 0x0200b3ffu32,
        0xae0cf51au32, 0x3cb574b2u32, 0x25837a58u32, 0xdc0921bdu32, 0xd19113f9u32, 0x7ca92ff6u32,
        0x94324773u32, 0x22f54701u32, 0x3ae5e581u32, 0x37c2dadcu32, 0xc8b57634u32, 0x9af3dda7u32,
        0xa9446146u32, 0x0fd0030eu32, 0xecc8c73eu32, 0xa4751e41u32, 0xe238cd99u32, 0x3bea0e2fu32,
        0x3280bba1u32, 0x183eb331u32, 0x4e548b38u32, 0x4f6db908u32, 0x6f420d03u32, 0xf60a04bfu32,
        0x2cb81290u32, 0x24977c79u32, 0x5679b072u32, 0xbcaf89afu32, 0xde9a771fu32, 0xd9930810u32,
        0xb38bae12u32, 0xdccf3f2eu32, 0x5512721fu32, 0x2e6b7124u32, 0x501adde6u32, 0x9f84cd87u32,
        0x7a584718u32, 0x7408da17u32, 0xbc9f9abcu32, 0xe94b7d8cu32, 0xec7aec3au32, 0xdb851dfau32,
        0x63094366u32, 0xc464c3d2u32, 0xef1c1847u32, 0x3215d908u32, 0xdd433b37u32, 0x24c2ba16u32,
        0x12a14d43u32, 0x2a65c451u32, 0x50940002u32, 0x133ae4ddu32, 0x71dff89eu32, 0x10314e55u32,
        0x81ac77d6u32, 0x5f11199bu32, 0x043556f1u32, 0xd7a3c76bu32, 0x3c11183bu32, 0x5924a509u32,
        0xf28fe6edu32, 0x97f1fbfau32, 0x9ebabf2cu32, 0x1e153c6eu32, 0x86e34570u32, 0xeae96fb1u32,
        0x860e5e0au32, 0x5a3e2ab3u32, 0x771fe71cu32, 0x4e3d06fau32, 0x2965dcb9u32, 0x99e71d0fu32,
        0x803e89d6u32, 0x5266c825u32, 0x2e4cc978u32, 0x9c10b36au32, 0xc6150ebau32, 0x94e2ea78u32,
        0xa5fc3c53u32, 0x1e0a2df4u32, 0xf2f74ea7u32, 0x361d2b3du32, 0x1939260fu32, 0x19c27960u32,
        0x5223a708u32, 0xf71312b6u32, 0xebadfe6eu32, 0xeac31f66u32, 0xe3bc4595u32, 0xa67bc883u32,
        0xb17f37d1u32, 0x018cff28u32, 0xc332ddefu32, 0xbe6c5aa5u32, 0x65582185u32, 0x68ab9802u32,
        0xeecea50fu32, 0xdb2f953bu32, 0x2aef7dadu32, 0x5b6e2f84u32, 0x1521b628u32, 0x29076170u32,
        0xecdd4775u32, 0x619f1510u32, 0x13cca830u32, 0xeb61bd96u32, 0x0334fe1eu32, 0xaa0363cfu32,
        0xb5735c90u32, 0x4c70a239u32, 0xd59e9e0bu32, 0xcbaade14u32, 0xeecc86bcu32, 0x60622ca7u32,
        0x9cab5cabu32, 0xb2f3846eu32, 0x648b1eafu32, 0x19bdf0cau32, 0xa02369b9u32, 0x655abb50u32,
        0x40685a32u32, 0x3c2ab4b3u32, 0x319ee9d5u32, 0xc021b8f7u32, 0x9b540b19u32, 0x875fa099u32,
        0x95f7997eu32, 0x623d7da8u32, 0xf837889au32, 0x97e32d77u32, 0x11ed935fu32, 0x16681281u32,
        0x0e358829u32, 0xc7e61fd6u32, 0x96dedfa1u32, 0x7858ba99u32, 0x57f584a5u32, 0x1b227263u32,
        0x9b83c3ffu32, 0x1ac24696u32, 0xcdb30aebu32, 0x532e3054u32, 0x8fd948e4u32, 0x6dbc3128u32,
        0x58ebf2efu32, 0x34c6ffeau32, 0xfe28ed61u32, 0xee7c3c73u32, 0x5d4a14d9u32, 0xe864b7e3u32,
        0x42105d14u32, 0x203e13e0u32, 0x45eee2b6u32, 0xa3aaabeau32, 0xdb6c4f15u32, 0xfacb4fd0u32,
        0xc742f442u32, 0xef6abbb5u32, 0x654f3b1du32, 0x41cd2105u32, 0xd81e799eu32, 0x86854dc7u32,
        0xe44b476au32, 0x3d816250u32, 0xcf62a1f2u32, 0x5b8d2646u32, 0xfc8883a0u32, 0xc1c7b6a3u32,
        0x7f1524c3u32, 0x69cb7492u32, 0x47848a0bu32, 0x5692b285u32, 0x095bbf00u32, 0xad19489du32,
        0x1462b174u32, 0x23820e00u32, 0x58428d2au32, 0x0c55f5eau32, 0x1dadf43eu32, 0x233f7061u32,
        0x3372f092u32, 0x8d937e41u32, 0xd65fecf1u32, 0x6c223bdbu32, 0x7cde3759u32, 0xcbee7460u32,
        0x4085f2a7u32, 0xce77326eu32, 0xa6078084u32, 0x19f8509eu32, 0xe8efd855u32, 0x61d99735u32,
        0xa969a7aau32, 0xc50c06c2u32, 0x5a04abfcu32, 0x800bcadcu32, 0x9e447a2eu32, 0xc3453484u32,
        0xfdd56705u32, 0x0e1e9ec9u32, 0xdb73dbd3u32, 0x105588cdu32, 0x675fda79u32, 0xe3674340u32,
        0xc5c43465u32, 0x713e38d8u32, 0x3d28f89eu32, 0xf16dff20u32, 0x153e21e7u32, 0x8fb03d4au32,
        0xe6e39f2bu32, 0xdb83adf7u32, 0xe93d5a68u32, 0x948140f7u32, 0xf64c261cu32, 0x94692934u32,
        0x411520f7u32, 0x7602d4f7u32, 0xbcf46b2eu32, 0xd4a20068u32, 0xd4082471u32, 0x3320f46au32,
        0x43b7d4b7u32, 0x500061afu32, 0x1e39f62eu32, 0x97244546u32, 0x14214f74u32, 0xbf8b8840u32,
        0x4d95fc1du32, 0x96b591afu32, 0x70f4ddd3u32, 0x66a02f45u32, 0xbfbc09ecu32, 0x03bd9785u32,
        0x7fac6dd0u32, 0x31cb8504u32, 0x96eb27b3u32, 0x55fd3941u32, 0xda2547e6u32, 0xabca0a9au32,
        0x28507825u32, 0x530429f4u32, 0x0a2c86dau32, 0xe9b66dfbu32, 0x68dc1462u32, 0xd7486900u32,
        0x680ec0a4u32, 0x27a18deeu32, 0x4f3ffea2u32, 0xe887ad8cu32, 0xb58ce006u32, 0x7af4d6b6u32,
        0xaace1e7cu32, 0xd3375fecu32, 0xce78a399u32, 0x406b2a42u32, 0x20fe9e35u32, 0xd9f385b9u32,
        0xee39d7abu32, 0x3b124e8bu32, 0x1dc9faf7u32, 0x4b6d1856u32, 0x26a36631u32, 0xeae397b2u32,
        0x3a6efa74u32, 0xdd5b4332u32, 0x6841e7f7u32, 0xca7820fbu32, 0xfb0af54eu32, 0xd8feb397u32,
        0x454056acu32, 0xba489527u32, 0x55533a3au32, 0x20838d87u32, 0xfe6ba9b7u32, 0xd096954bu32,
        0x55a867bcu32, 0xa1159a58u32, 0xcca92963u32, 0x99e1db33u32, 0xa62a4a56u32, 0x3f3125f9u32,
        0x5ef47e1cu32, 0x9029317cu32, 0xfdf8e802u32, 0x04272f70u32, 0x80bb155cu32, 0x05282ce3u32,
        0x95c11548u32, 0xe4c66d22u32, 0x48c1133fu32, 0xc70f86dcu32, 0x07f9c9eeu32, 0x41041f0fu32,
        0x404779a4u32, 0x5d886e17u32, 0x325f51ebu32, 0xd59bc0d1u32, 0xf2bcc18fu32, 0x41113564u32,
        0x257b7834u32, 0x602a9c60u32, 0xdff8e8a3u32, 0x1f636c1bu32, 0x0e12b4c2u32, 0x02e1329eu32,
        0xaf664fd1u32, 0xcad18115u32, 0x6b2395e0u32, 0x333e92e1u32, 0x3b240b62u32, 0xeebeb922u32,
        0x85b2a20eu32, 0xe6ba0d99u32, 0xde720c8cu32, 0x2da2f728u32, 0xd0127845u32, 0x95b794fdu32,
        0x647d0862u32, 0xe7ccf5f0u32, 0x5449a36fu32, 0x877d48fau32, 0xc39dfd27u32, 0xf33e8d1eu32,
        0x0a476341u32, 0x992eff74u32, 0x3a6f6eabu32, 0xf4f8fd37u32, 0xa812dc60u32, 0xa1ebddf8u32,
        0x991be14cu32, 0xdb6e6b0du32, 0xc67b5510u32, 0x6d672c37u32, 0x2765d43bu32, 0xdcd0e804u32,
        0xf1290dc7u32, 0xcc00ffa3u32, 0xb5390f92u32, 0x690fed0bu32, 0x667b9ffbu32, 0xcedb7d9cu32,
        0xa091cf0bu32, 0xd9155ea3u32, 0xbb132f88u32, 0x515bad24u32, 0x7b9479bfu32, 0x763bd6ebu32,
        0x37392eb3u32, 0xcc115979u32, 0x8026e297u32, 0xf42e312du32, 0x6842ada7u32, 0xc66a2b3bu32,
        0x12754cccu32, 0x782ef11cu32, 0x6a124237u32, 0xb79251e7u32, 0x06a1bbe6u32, 0x4bfb6350u32,
        0x1a6b1018u32, 0x11caedfau32, 0x3d25bdd8u32, 0xe2e1c3c9u32, 0x44421659u32, 0x0a121386u32,
        0xd90cec6eu32, 0xd5abea2au32, 0x64af674eu32, 0xda86a85fu32, 0xbebfe988u32, 0x64e4c3feu32,
        0x9dbc8057u32, 0xf0f7c086u32, 0x60787bf8u32, 0x6003604du32, 0xd1fd8346u32, 0xf6381fb0u32,
        0x7745ae04u32, 0xd736fcccu32, 0x83426b33u32, 0xf01eab71u32, 0xb0804187u32, 0x3c005e5fu32,
        0x77a057beu32, 0xbde8ae24u32, 0x55464299u32, 0xbf582e61u32, 0x4e58f48fu32, 0xf2ddfda2u32,
        0xf474ef38u32, 0x8789bdc2u32, 0x5366f9c3u32, 0xc8b38e74u32, 0xb475f255u32, 0x46fcd9b9u32,
        0x7aeb2661u32, 0x8b1ddf84u32, 0x846a0e79u32, 0x915f95e2u32, 0x466e598eu32, 0x20b45770u32,
        0x8cd55591u32, 0xc902de4cu32, 0xb90bace1u32, 0xbb8205d0u32, 0x11a86248u32, 0x7574a99eu32,
        0xb77f19b6u32, 0xe0a9dc09u32, 0x662d09a1u32, 0xc4324633u32, 0xe85a1f02u32, 0x09f0be8cu32,
        0x4a99a025u32, 0x1d6efe10u32, 0x1ab93d1du32, 0x0ba5a4dfu32, 0xa186f20fu32, 0x2868f169u32,
        0xdcb7da83u32, 0x573906feu32, 0xa1e2ce9bu32, 0x4fcd7f52u32, 0x50115e01u32, 0xa70683fau32,
        0xa002b5c4u32, 0x0de6d027u32, 0x9af88c27u32, 0x773f8641u32, 0xc3604c06u32, 0x61a806b5u32,
        0xf0177a28u32, 0xc0f586e0u32, 0x006058aau32, 0x30dc7d62u32, 0x11e69ed7u32, 0x2338ea63u32,
        0x53c2dd94u32, 0xc2c21634u32, 0xbbcbee56u32, 0x90bcb6deu32, 0xebfc7da1u32, 0xce591d76u32,
        0x6f05e409u32, 0x4b7c0188u32, 0x39720a3du32, 0x7c927c24u32, 0x86e3725fu32, 0x724d9db9u32,
        0x1ac15bb4u32, 0xd39eb8fcu32, 0xed545578u32, 0x08fca5b5u32, 0xd83d7cd3u32, 0x4dad0fc4u32,
        0x1e50ef5eu32, 0xb161e6f8u32, 0xa28514d9u32, 0x6c51133cu32, 0x6fd5c7e7u32, 0x56e14ec4u32,
        0x362abfceu32, 0xddc6c837u32, 0xd79a3234u32, 0x92638212u32, 0x670efa8eu32, 0x406000e0u32,
        0x3a39ce37u32, 0xd3faf5cfu32, 0xabc27737u32, 0x5ac52d1bu32, 0x5cb0679eu32, 0x4fa33742u32,
        0xd3822740u32, 0x99bc9bbeu32, 0xd5118e9du32, 0xbf0f7315u32, 0xd62d1c7eu32, 0xc700c47bu32,
        0xb78c1b6bu32, 0x21a19045u32, 0xb26eb1beu32, 0x6a366eb4u32, 0x5748ab2fu32, 0xbc946e79u32,
        0xc6a376d2u32, 0x6549c2c8u32, 0x530ff8eeu32, 0x468dde7du32, 0xd5730a1du32, 0x4cd04dc6u32,
        0x2939bbdbu32, 0xa9ba4650u32, 0xac9526e8u32, 0xbe5ee304u32, 0xa1fad5f0u32, 0x6a2d519au32,
        0x63ef8ce2u32, 0x9a86ee22u32, 0xc089c2b8u32, 0x43242ef6u32, 0xa51e03aau32, 0x9cf2d0a4u32,
        0x83c061bau32, 0x9be96a4du32, 0x8fe51550u32, 0xba645bd6u32, 0x2826a2f9u32, 0xa73a3ae1u32,
        0x4ba99586u32, 0xef5562e9u32, 0xc72fefd3u32, 0xf752f7dau32, 0x3f046f69u32, 0x77fa0a59u32,
        0x80e4a915u32, 0x87b08601u32, 0x9b09e6adu32, 0x3b3ee593u32, 0xe990fd5au32, 0x9e34d797u32,
        0x2cf0b7d9u32, 0x022b8b51u32, 0x96d5ac3au32, 0x017da67du32, 0xd1cf3ed6u32, 0x7c7d2d28u32,
        0x1f9f25cfu32, 0xadf2b89bu32, 0x5ad6b472u32, 0x5a88f54cu32, 0xe029ac71u32, 0xe019a5e6u32,
        0x47b0acfdu32, 0xed93fa9bu32, 0xe8d3c48du32, 0x283b57ccu32, 0xf8d56629u32, 0x79132e28u32,
        0x785f0191u32, 0xed756055u32, 0xf7960e44u32, 0xe3d35e8cu32, 0x15056dd4u32, 0x88f46dbau32,
        0x03a16125u32, 0x0564f0bdu32, 0xc3eb9e15u32, 0x3c9057a2u32, 0x97271aecu32, 0xa93a072au32,
        0x1b3f6d9bu32, 0x1e6321f5u32, 0xf59c66fbu32, 0x26dcf319u32, 0x7533d928u32, 0xb155fdf5u32,
        0x03563482u32, 0x8aba3cbbu32, 0x28517711u32, 0xc20ad9f8u32, 0xabcc5167u32, 0xccad925fu32,
        0x4de81751u32, 0x3830dc8eu32, 0x379d5862u32, 0x9320f991u32, 0xea7a90c2u32, 0xfb3e7bceu32,
        0x5121ce64u32, 0x774fbe32u32, 0xa8b6e37eu32, 0xc3293d46u32, 0x48de5369u32, 0x6413e680u32,
        0xa2ae0810u32, 0xdd6db224u32, 0x69852dfdu32, 0x09072166u32, 0xb39a460au32, 0x6445c0ddu32,
        0x586cdecfu32, 0x1c20c8aeu32, 0x5bbef7ddu32, 0x1b588d40u32, 0xccd2017fu32, 0x6bb4e3bbu32,
        0xdda26a7eu32, 0x3a59ff45u32, 0x3e350a44u32, 0xbcb4cdd5u32, 0x72eacea8u32, 0xfa6484bbu32,
        0x8d6612aeu32, 0xbf3c6f47u32, 0xd29be463u32, 0x542f5d9eu32, 0xaec2771bu32, 0xf64e6370u32,
        0x740e0d8du32, 0xe75b1357u32, 0xf8721671u32, 0xaf537d5du32, 0x4040cb08u32, 0x4eb4e2ccu32,
        0x34d2466au32, 0x0115af84u32, 0xe1b00428u32, 0x95983a1du32, 0x06b89fb4u32, 0xce6ea048u32,
        0x6f3f3b82u32, 0x3520ab82u32, 0x011a1d4bu32, 0x277227f8u32, 0x611560b1u32, 0xe7933fdcu32,
        0xbb3a792bu32, 0x344525bdu32, 0xa08839e1u32, 0x51ce794bu32, 0x2f32c9b7u32, 0xa01fbac9u32,
        0xe01cc87eu32, 0xbcc7d1f6u32, 0xcf0111c3u32, 0xa1e8aac7u32, 0x1a908749u32, 0xd44fbd9au32,
        0xd0dadecbu32, 0xd50ada38u32, 0x0339c32au32, 0xc6913667u32, 0x8df9317cu32, 0xe0b12b4fu32,
        0xf79e59b7u32, 0x43f5bb3au32, 0xf2d519ffu32, 0x27d9459cu32, 0xbf97222cu32, 0x15e6fc2au32,
        0x0f91fc71u32, 0x9b941525u32, 0xfae59361u32, 0xceb69cebu32, 0xc2a86459u32, 0x12baa8d1u32,
        0xb6c1075eu32, 0xe3056a0cu32, 0x10d25065u32, 0xcb03a442u32, 0xe0ec6e0eu32, 0x1698db3bu32,
        0x4c98a0beu32, 0x3278e964u32, 0x9f1f9532u32, 0xe0d392dfu32, 0xd3a0342bu32, 0x8971f21eu32,
        0x1b0a7441u32, 0x4ba3348cu32, 0xc5be7120u32, 0xc37632d8u32, 0xdf359f8du32, 0x9b992f2eu32,
        0xe60b6f47u32, 0x0fe3f11du32, 0xe54cda54u32, 0x1edad891u32, 0xce6279cfu32, 0xcd3e7e6fu32,
        0x1618b166u32, 0xfd2c1d05u32, 0x848fd2c5u32, 0xf6fb2299u32, 0xf523f357u32, 0xa6327623u32,
        0x93a83531u32, 0x56cccd02u32, 0xacf08162u32, 0x5a75ebb5u32, 0x6e163697u32, 0x88d273ccu32,
        0xde966292u32, 0x81b949d0u32, 0x4c50901bu32, 0x71c65614u32, 0xe6c6c7bdu32, 0x327a140au32,
        0x45e1d006u32, 0xc3f27b9au32, 0xc9aa53fdu32, 0x62a80f00u32, 0xbb25bfe2u32, 0x35bdd2f6u32,
        0x71126905u32, 0xb2040222u32, 0xb6cbcf7cu32, 0xcd769c2bu32, 0x53113ec0u32, 0x1640e3d3u32,
        0x38abbd60u32, 0x2547adf0u32, 0xba38209cu32, 0xf746ce76u32, 0x77afa1c5u32, 0x20756060u32,
        0x85cbfe4eu32, 0x8ae88dd8u32, 0x7aaaf9b0u32, 0x4cf9aa7eu32, 0x1948c25cu32, 0x02fb8a8cu32,
        0x01c36ae4u32, 0xd6ebe1f9u32, 0x90d4f869u32, 0xa65cdea0u32, 0x3f09252du32, 0xc208e69fu32,
        0xb74e6132u32, 0xce77e25bu32, 0x578fdfe3u32, 0x3ac372e6u32,
    ];
    assert(v@ == pi_s()) by {
        reveal(pi_s);
    }
    v
}

} // verus!
