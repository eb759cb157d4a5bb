//! The bundled time zone database: a snapshot of zone-information files
//! that is compiled into the library, and a lookup by zone name.

use crate::decode::spec_decode;
use crate::error::Error;
use crate::zone::{Tz, TzView};
use crate::zoneinfo::{
    AFRICA_ABIDJAN, AFRICA_ALGIERS, AFRICA_BISSAU, AFRICA_CAIRO, AFRICA_CASABLANCA, AFRICA_CEUTA,
    AFRICA_EL_AAIUN, AFRICA_JOHANNESBURG, AFRICA_JUBA, AFRICA_KHARTOUM, AFRICA_LAGOS,
    AFRICA_MAPUTO, AFRICA_MONROVIA, AFRICA_NAIROBI, AFRICA_NDJAMENA, AFRICA_SAO_TOME,
    AFRICA_TRIPOLI, AFRICA_TUNIS, AFRICA_WINDHOEK, AMERICA_ADAK, AMERICA_ANCHORAGE,
    AMERICA_ARAGUAINA, AMERICA_ARGENTINA_BUENOS_AIRES, AMERICA_ARGENTINA_CATAMARCA,
    AMERICA_ARGENTINA_CORDOBA, AMERICA_ARGENTINA_JUJUY, AMERICA_ARGENTINA_LA_RIOJA,
    AMERICA_ARGENTINA_MENDOZA, AMERICA_ARGENTINA_RIO_GALLEGOS, AMERICA_ARGENTINA_SALTA,
    AMERICA_ARGENTINA_SAN_JUAN, AMERICA_ARGENTINA_SAN_LUIS, AMERICA_ARGENTINA_TUCUMAN,
    AMERICA_ARGENTINA_USHUAIA, AMERICA_ASUNCION, AMERICA_BAHIA, AMERICA_BAHIA_BANDERAS,
    AMERICA_BARBADOS, AMERICA_BELEM, AMERICA_BELIZE, AMERICA_BOA_VISTA, AMERICA_BOGOTA,
    AMERICA_BOISE, AMERICA_CAMBRIDGE_BAY, AMERICA_CAMPO_GRANDE, AMERICA_CANCUN, AMERICA_CARACAS,
    AMERICA_CAYENNE, AMERICA_CHICAGO, AMERICA_CHIHUAHUA, AMERICA_CIUDAD_JUAREZ,
    AMERICA_COSTA_RICA, AMERICA_COYHAIQUE, AMERICA_CUIABA, AMERICA_DANMARKSHAVN, AMERICA_DAWSON,
    AMERICA_DAWSON_CREEK, AMERICA_DENVER, AMERICA_DETROIT, AMERICA_EDMONTON, AMERICA_EIRUNEPE,
    AMERICA_EL_SALVADOR, AMERICA_FORTALEZA, AMERICA_FORT_NELSON, AMERICA_GLACE_BAY,
    AMERICA_GOOSE_BAY, AMERICA_GRAND_TURK, AMERICA_GUATEMALA, AMERICA_GUAYAQUIL, AMERICA_GUYANA,
    AMERICA_HALIFAX, AMERICA_HAVANA, AMERICA_HERMOSILLO, AMERICA_INDIANA_INDIANAPOLIS,
    AMERICA_INDIANA_KNOX, AMERICA_INDIANA_MARENGO, AMERICA_INDIANA_PETERSBURG,
    AMERICA_INDIANA_TELL_CITY, AMERICA_INDIANA_VEVAY, AMERICA_INDIANA_VINCENNES,
    AMERICA_INDIANA_WINAMAC, AMERICA_INUVIK, AMERICA_IQALUIT, AMERICA_JAMAICA, AMERICA_JUNEAU,
    AMERICA_KENTUCKY_LOUISVILLE, AMERICA_KENTUCKY_MONTICELLO, AMERICA_LA_PAZ, AMERICA_LIMA,
    AMERICA_LOS_ANGELES, AMERICA_MACEIO, AMERICA_MANAGUA, AMERICA_MANAUS, AMERICA_MARTINIQUE,
    AMERICA_MATAMOROS, AMERICA_MAZATLAN, AMERICA_MENOMINEE, AMERICA_MERIDA, AMERICA_METLAKATLA,
    AMERICA_MEXICO_CITY, AMERICA_MIQUELON, AMERICA_MONCTON, AMERICA_MONTERREY,
    AMERICA_MONTEVIDEO, AMERICA_NEW_YORK, AMERICA_NOME, AMERICA_NORONHA,
    AMERICA_NORTH_DAKOTA_BEULAH, AMERICA_NORTH_DAKOTA_CENTER, AMERICA_NORTH_DAKOTA_NEW_SALEM,
    AMERICA_NUUK, AMERICA_OJINAGA, AMERICA_PANAMA, AMERICA_PARAMARIBO, AMERICA_PHOENIX,
    AMERICA_PORTO_VELHO, AMERICA_PORT_MINUS_AU_MINUS_PRINCE, AMERICA_PUERTO_RICO,
    AMERICA_PUNTA_ARENAS, AMERICA_RANKIN_INLET, AMERICA_RECIFE, AMERICA_REGINA, AMERICA_RESOLUTE,
    AMERICA_RIO_BRANCO, AMERICA_SANTAREM, AMERICA_SANTIAGO, AMERICA_SANTO_DOMINGO,
    AMERICA_SAO_PAULO, AMERICA_SCORESBYSUND, AMERICA_SITKA, AMERICA_ST_JOHNS,
    AMERICA_SWIFT_CURRENT, AMERICA_TEGUCIGALPA, AMERICA_THULE, AMERICA_TIJUANA, AMERICA_TORONTO,
    AMERICA_VANCOUVER, AMERICA_WHITEHORSE, AMERICA_WINNIPEG, AMERICA_YAKUTAT, ANTARCTICA_CASEY,
    ANTARCTICA_DAVIS, ANTARCTICA_MACQUARIE, ANTARCTICA_MAWSON, ANTARCTICA_PALMER,
    ANTARCTICA_ROTHERA, ANTARCTICA_TROLL, ANTARCTICA_VOSTOK, ASIA_ALMATY, ASIA_AMMAN,
    ASIA_ANADYR, ASIA_AQTAU, ASIA_AQTOBE, ASIA_ASHGABAT, ASIA_ATYRAU, ASIA_BAGHDAD, ASIA_BAKU,
    ASIA_BANGKOK, ASIA_BARNAUL, ASIA_BEIRUT, ASIA_BISHKEK, ASIA_CHITA, ASIA_COLOMBO,
    ASIA_DAMASCUS, ASIA_DHAKA, ASIA_DILI, ASIA_DUBAI, ASIA_DUSHANBE, ASIA_FAMAGUSTA, ASIA_GAZA,
    ASIA_HEBRON, ASIA_HONG_KONG, ASIA_HOVD, ASIA_HO_CHI_MINH, ASIA_IRKUTSK, ASIA_JAKARTA,
    ASIA_JAYAPURA, ASIA_JERUSALEM, ASIA_KABUL, ASIA_KAMCHATKA, ASIA_KARACHI, ASIA_KATHMANDU,
    ASIA_KHANDYGA, ASIA_KOLKATA, ASIA_KRASNOYARSK, ASIA_KUCHING, ASIA_MACAU, ASIA_MAGADAN,
    ASIA_MAKASSAR, ASIA_MANILA, ASIA_NICOSIA, ASIA_NOVOKUZNETSK, ASIA_NOVOSIBIRSK, ASIA_OMSK,
    ASIA_ORAL, ASIA_PONTIANAK, ASIA_PYONGYANG, ASIA_QATAR, ASIA_QOSTANAY, ASIA_QYZYLORDA,
    ASIA_RIYADH, ASIA_SAKHALIN, ASIA_SAMARKAND, ASIA_SEOUL, ASIA_SHANGHAI, ASIA_SINGAPORE,
    ASIA_SREDNEKOLYMSK, ASIA_TAIPEI, ASIA_TASHKENT, ASIA_TBILISI, ASIA_TEHRAN, ASIA_THIMPHU,
    ASIA_TOKYO, ASIA_TOMSK, ASIA_ULAANBAATAR, ASIA_URUMQI, ASIA_UST_MINUS_NERA, ASIA_VLADIVOSTOK,
    ASIA_YAKUTSK, ASIA_YANGON, ASIA_YEKATERINBURG, ASIA_YEREVAN, ATLANTIC_AZORES,
    ATLANTIC_BERMUDA, ATLANTIC_CANARY, ATLANTIC_CAPE_VERDE, ATLANTIC_FAROE, ATLANTIC_MADEIRA,
    ATLANTIC_SOUTH_GEORGIA, ATLANTIC_STANLEY, AUSTRALIA_ADELAIDE, AUSTRALIA_BRISBANE,
    AUSTRALIA_BROKEN_HILL, AUSTRALIA_DARWIN, AUSTRALIA_EUCLA, AUSTRALIA_HOBART,
    AUSTRALIA_LINDEMAN, AUSTRALIA_LORD_HOWE, AUSTRALIA_MELBOURNE, AUSTRALIA_PERTH,
    AUSTRALIA_SYDNEY, ETC_GMT, ETC_GMT_MINUS_1, ETC_GMT_MINUS_10, ETC_GMT_MINUS_11,
    ETC_GMT_MINUS_12, ETC_GMT_MINUS_13, ETC_GMT_MINUS_14, ETC_GMT_MINUS_2, ETC_GMT_MINUS_3,
    ETC_GMT_MINUS_4, ETC_GMT_MINUS_5, ETC_GMT_MINUS_6, ETC_GMT_MINUS_7, ETC_GMT_MINUS_8,
    ETC_GMT_MINUS_9, ETC_GMT_PLUS_1, ETC_GMT_PLUS_10, ETC_GMT_PLUS_11, ETC_GMT_PLUS_12,
    ETC_GMT_PLUS_2, ETC_GMT_PLUS_3, ETC_GMT_PLUS_4, ETC_GMT_PLUS_5, ETC_GMT_PLUS_6,
    ETC_GMT_PLUS_7, ETC_GMT_PLUS_8, ETC_GMT_PLUS_9, ETC_UTC, EUROPE_ANDORRA, EUROPE_ASTRAKHAN,
    EUROPE_ATHENS, EUROPE_BELGRADE, EUROPE_BERLIN, EUROPE_BRUSSELS, EUROPE_BUCHAREST,
    EUROPE_BUDAPEST, EUROPE_CHISINAU, EUROPE_DUBLIN, EUROPE_GIBRALTAR, EUROPE_HELSINKI,
    EUROPE_ISTANBUL, EUROPE_KALININGRAD, EUROPE_KIROV, EUROPE_KYIV, EUROPE_LISBON, EUROPE_LONDON,
    EUROPE_MADRID, EUROPE_MALTA, EUROPE_MINSK, EUROPE_MOSCOW, EUROPE_PARIS, EUROPE_PRAGUE,
    EUROPE_RIGA, EUROPE_ROME, EUROPE_SAMARA, EUROPE_SARATOV, EUROPE_SIMFEROPOL, EUROPE_SOFIA,
    EUROPE_TALLINN, EUROPE_TIRANE, EUROPE_ULYANOVSK, EUROPE_VIENNA, EUROPE_VILNIUS,
    EUROPE_VOLGOGRAD, EUROPE_WARSAW, EUROPE_ZURICH, FACTORY, INDIAN_CHAGOS, INDIAN_MALDIVES,
    INDIAN_MAURITIUS, PACIFIC_APIA, PACIFIC_AUCKLAND, PACIFIC_BOUGAINVILLE, PACIFIC_CHATHAM,
    PACIFIC_EASTER, PACIFIC_EFATE, PACIFIC_FAKAOFO, PACIFIC_FIJI, PACIFIC_GALAPAGOS,
    PACIFIC_GAMBIER, PACIFIC_GUADALCANAL, PACIFIC_GUAM, PACIFIC_HONOLULU, PACIFIC_KANTON,
    PACIFIC_KIRITIMATI, PACIFIC_KOSRAE, PACIFIC_KWAJALEIN, PACIFIC_MARQUESAS, PACIFIC_NAURU,
    PACIFIC_NIUE, PACIFIC_NORFOLK, PACIFIC_NOUMEA, PACIFIC_PAGO_PAGO, PACIFIC_PALAU,
    PACIFIC_PITCAIRN, PACIFIC_PORT_MORESBY, PACIFIC_RAROTONGA, PACIFIC_TAHITI, PACIFIC_TARAWA,
    PACIFIC_TONGATAPU,
};
use vstd::prelude::*;
use vstd::string::StringSliceAdditionalSpecFns;

verus! {

/// The release of the time zone database that the snapshot was taken from.
pub const TZ_DB_VERSION: &'static str = "2026a";

/// The bundled zones in the order of their names: each name with the bytes
/// of its file.
pub open spec fn bundled_entries() -> Seq<(Seq<char>, Seq<u8>)> {
    seq![
        ("Africa/Abidjan"@, AFRICA_ABIDJAN@),
        ("Africa/Accra"@, AFRICA_ABIDJAN@),
        ("Africa/Addis_Ababa"@, AFRICA_NAIROBI@),
        ("Africa/Algiers"@, AFRICA_ALGIERS@),
        ("Africa/Asmara"@, AFRICA_NAIROBI@),
        ("Africa/Asmera"@, AFRICA_NAIROBI@),
        ("Africa/Bamako"@, AFRICA_ABIDJAN@),
        ("Africa/Bangui"@, AFRICA_LAGOS@),
        ("Africa/Banjul"@, AFRICA_ABIDJAN@),
        ("Africa/Bissau"@, AFRICA_BISSAU@),
        ("Africa/Blantyre"@, AFRICA_MAPUTO@),
        ("Africa/Brazzaville"@, AFRICA_LAGOS@),
        ("Africa/Bujumbura"@, AFRICA_MAPUTO@),
        ("Africa/Cairo"@, AFRICA_CAIRO@),
        ("Africa/Casablanca"@, AFRICA_CASABLANCA@),
        ("Africa/Ceuta"@, AFRICA_CEUTA@),
        ("Africa/Conakry"@, AFRICA_ABIDJAN@),
        ("Africa/Dakar"@, AFRICA_ABIDJAN@),
        ("Africa/Dar_es_Salaam"@, AFRICA_NAIROBI@),
        ("Africa/Djibouti"@, AFRICA_NAIROBI@),
        ("Africa/Douala"@, AFRICA_LAGOS@),
        ("Africa/El_Aaiun"@, AFRICA_EL_AAIUN@),
        ("Africa/Freetown"@, AFRICA_ABIDJAN@),
        ("Africa/Gaborone"@, AFRICA_MAPUTO@),
        ("Africa/Harare"@, AFRICA_MAPUTO@),
        ("Africa/Johannesburg"@, AFRICA_JOHANNESBURG@),
        ("Africa/Juba"@, AFRICA_JUBA@),
        ("Africa/Kampala"@, AFRICA_NAIROBI@),
        ("Africa/Khartoum"@, AFRICA_KHARTOUM@),
        ("Africa/Kigali"@, AFRICA_MAPUTO@),
        ("Africa/Kinshasa"@, AFRICA_LAGOS@),
        ("Africa/Lagos"@, AFRICA_LAGOS@),
        ("Africa/Libreville"@, AFRICA_LAGOS@),
        ("Africa/Lome"@, AFRICA_ABIDJAN@),
        ("Africa/Luanda"@, AFRICA_LAGOS@),
        ("Africa/Lubumbashi"@, AFRICA_MAPUTO@),
        ("Africa/Lusaka"@, AFRICA_MAPUTO@),
        ("Africa/Malabo"@, AFRICA_LAGOS@),
        ("Africa/Maputo"@, AFRICA_MAPUTO@),
        ("Africa/Maseru"@, AFRICA_JOHANNESBURG@),
        ("Africa/Mbabane"@, AFRICA_JOHANNESBURG@),
        ("Africa/Mogadishu"@, AFRICA_NAIROBI@),
        ("Africa/Monrovia"@, AFRICA_MONROVIA@),
        ("Africa/Nairobi"@, AFRICA_NAIROBI@),
        ("Africa/Ndjamena"@, AFRICA_NDJAMENA@),
        ("Africa/Niamey"@, AFRICA_LAGOS@),
        ("Africa/Nouakchott"@, AFRICA_ABIDJAN@),
        ("Africa/Ouagadougou"@, AFRICA_ABIDJAN@),
        ("Africa/Porto-Novo"@, AFRICA_LAGOS@),
        ("Africa/Sao_Tome"@, AFRICA_SAO_TOME@),
        ("Africa/Timbuktu"@, AFRICA_ABIDJAN@),
        ("Africa/Tripoli"@, AFRICA_TRIPOLI@),
        ("Africa/Tunis"@, AFRICA_TUNIS@),
        ("Africa/Windhoek"@, AFRICA_WINDHOEK@),
        ("America/Adak"@, AMERICA_ADAK@),
        ("America/Anchorage"@, AMERICA_ANCHORAGE@),
        ("America/Anguilla"@, AMERICA_PUERTO_RICO@),
        ("America/Antigua"@, AMERICA_PUERTO_RICO@),
        ("America/Araguaina"@, AMERICA_ARAGUAINA@),
        ("America/Argentina/Buenos_Aires"@, AMERICA_ARGENTINA_BUENOS_AIRES@),
        ("America/Argentina/Catamarca"@, AMERICA_ARGENTINA_CATAMARCA@),
        ("America/Argentina/ComodRivadavia"@, AMERICA_ARGENTINA_CATAMARCA@),
        ("America/Argentina/Cordoba"@, AMERICA_ARGENTINA_CORDOBA@),
        ("America/Argentina/Jujuy"@, AMERICA_ARGENTINA_JUJUY@),
        ("America/Argentina/La_Rioja"@, AMERICA_ARGENTINA_LA_RIOJA@),
        ("America/Argentina/Mendoza"@, AMERICA_ARGENTINA_MENDOZA@),
        ("America/Argentina/Rio_Gallegos"@, AMERICA_ARGENTINA_RIO_GALLEGOS@),
        ("America/Argentina/Salta"@, AMERICA_ARGENTINA_SALTA@),
        ("America/Argentina/San_Juan"@, AMERICA_ARGENTINA_SAN_JUAN@),
        ("America/Argentina/San_Luis"@, AMERICA_ARGENTINA_SAN_LUIS@),
        ("America/Argentina/Tucuman"@, AMERICA_ARGENTINA_TUCUMAN@),
        ("America/Argentina/Ushuaia"@, AMERICA_ARGENTINA_USHUAIA@),
        ("America/Aruba"@, AMERICA_PUERTO_RICO@),
        ("America/Asuncion"@, AMERICA_ASUNCION@),
        ("America/Atikokan"@, AMERICA_PANAMA@),
        ("America/Atka"@, AMERICA_ADAK@),
        ("America/Bahia"@, AMERICA_BAHIA@),
        ("America/Bahia_Banderas"@, AMERICA_BAHIA_BANDERAS@),
        ("America/Barbados"@, AMERICA_BARBADOS@),
        ("America/Belem"@, AMERICA_BELEM@),
        ("America/Belize"@, AMERICA_BELIZE@),
        ("America/Blanc-Sablon"@, AMERICA_PUERTO_RICO@),
        ("America/Boa_Vista"@, AMERICA_BOA_VISTA@),
        ("America/Bogota"@, AMERICA_BOGOTA@),
        ("America/Boise"@, AMERICA_BOISE@),
        ("America/Buenos_Aires"@, AMERICA_ARGENTINA_BUENOS_AIRES@),
        ("America/Cambridge_Bay"@, AMERICA_CAMBRIDGE_BAY@),
        ("America/Campo_Grande"@, AMERICA_CAMPO_GRANDE@),
        ("America/Cancun"@, AMERICA_CANCUN@),
        ("America/Caracas"@, AMERICA_CARACAS@),
        ("America/Catamarca"@, AMERICA_ARGENTINA_CATAMARCA@),
        ("America/Cayenne"@, AMERICA_CAYENNE@),
        ("America/Cayman"@, AMERICA_PANAMA@),
        ("America/Chicago"@, AMERICA_CHICAGO@),
        ("America/Chihuahua"@, AMERICA_CHIHUAHUA@),
        ("America/Ciudad_Juarez"@, AMERICA_CIUDAD_JUAREZ@),
        ("America/Coral_Harbour"@, AMERICA_PANAMA@),
        ("America/Cordoba"@, AMERICA_ARGENTINA_CORDOBA@),
        ("America/Costa_Rica"@, AMERICA_COSTA_RICA@),
        ("America/Coyhaique"@, AMERICA_COYHAIQUE@),
        ("America/Creston"@, AMERICA_PHOENIX@),
        ("America/Cuiaba"@, AMERICA_CUIABA@),
        ("America/Curacao"@, AMERICA_PUERTO_RICO@),
        ("America/Danmarkshavn"@, AMERICA_DANMARKSHAVN@),
        ("America/Dawson"@, AMERICA_DAWSON@),
        ("America/Dawson_Creek"@, AMERICA_DAWSON_CREEK@),
        ("America/Denver"@, AMERICA_DENVER@),
        ("America/Detroit"@, AMERICA_DETROIT@),
        ("America/Dominica"@, AMERICA_PUERTO_RICO@),
        ("America/Edmonton"@, AMERICA_EDMONTON@),
        ("America/Eirunepe"@, AMERICA_EIRUNEPE@),
        ("America/El_Salvador"@, AMERICA_EL_SALVADOR@),
        ("America/Ensenada"@, AMERICA_TIJUANA@),
        ("America/Fort_Nelson"@, AMERICA_FORT_NELSON@),
        ("America/Fort_Wayne"@, AMERICA_INDIANA_INDIANAPOLIS@),
        ("America/Fortaleza"@, AMERICA_FORTALEZA@),
        ("America/Glace_Bay"@, AMERICA_GLACE_BAY@),
        ("America/Godthab"@, AMERICA_NUUK@),
        ("America/Goose_Bay"@, AMERICA_GOOSE_BAY@),
        ("America/Grand_Turk"@, AMERICA_GRAND_TURK@),
        ("America/Grenada"@, AMERICA_PUERTO_RICO@),
        ("America/Guadeloupe"@, AMERICA_PUERTO_RICO@),
        ("America/Guatemala"@, AMERICA_GUATEMALA@),
        ("America/Guayaquil"@, AMERICA_GUAYAQUIL@),
        ("America/Guyana"@, AMERICA_GUYANA@),
        ("America/Halifax"@, AMERICA_HALIFAX@),
        ("America/Havana"@, AMERICA_HAVANA@),
        ("America/Hermosillo"@, AMERICA_HERMOSILLO@),
        ("America/Indiana/Indianapolis"@, AMERICA_INDIANA_INDIANAPOLIS@),
        ("America/Indiana/Knox"@, AMERICA_INDIANA_KNOX@),
        ("America/Indiana/Marengo"@, AMERICA_INDIANA_MARENGO@),
        ("America/Indiana/Petersburg"@, AMERICA_INDIANA_PETERSBURG@),
        ("America/Indiana/Tell_City"@, AMERICA_INDIANA_TELL_CITY@),
        ("America/Indiana/Vevay"@, AMERICA_INDIANA_VEVAY@),
        ("America/Indiana/Vincennes"@, AMERICA_INDIANA_VINCENNES@),
        ("America/Indiana/Winamac"@, AMERICA_INDIANA_WINAMAC@),
        ("America/Indianapolis"@, AMERICA_INDIANA_INDIANAPOLIS@),
        ("America/Inuvik"@, AMERICA_INUVIK@),
        ("America/Iqaluit"@, AMERICA_IQALUIT@),
        ("America/Jamaica"@, AMERICA_JAMAICA@),
        ("America/Jujuy"@, AMERICA_ARGENTINA_JUJUY@),
        ("America/Juneau"@, AMERICA_JUNEAU@),
        ("America/Kentucky/Louisville"@, AMERICA_KENTUCKY_LOUISVILLE@),
        ("America/Kentucky/Monticello"@, AMERICA_KENTUCKY_MONTICELLO@),
        ("America/Knox_IN"@, AMERICA_INDIANA_KNOX@),
        ("America/Kralendijk"@, AMERICA_PUERTO_RICO@),
        ("America/La_Paz"@, AMERICA_LA_PAZ@),
        ("America/Lima"@, AMERICA_LIMA@),
        ("America/Los_Angeles"@, AMERICA_LOS_ANGELES@),
        ("America/Louisville"@, AMERICA_KENTUCKY_LOUISVILLE@),
        ("America/Lower_Princes"@, AMERICA_PUERTO_RICO@),
        ("America/Maceio"@, AMERICA_MACEIO@),
        ("America/Managua"@, AMERICA_MANAGUA@),
        ("America/Manaus"@, AMERICA_MANAUS@),
        ("America/Marigot"@, AMERICA_PUERTO_RICO@),
        ("America/Martinique"@, AMERICA_MARTINIQUE@),
        ("America/Matamoros"@, AMERICA_MATAMOROS@),
        ("America/Mazatlan"@, AMERICA_MAZATLAN@),
        ("America/Mendoza"@, AMERICA_ARGENTINA_MENDOZA@),
        ("America/Menominee"@, AMERICA_MENOMINEE@),
        ("America/Merida"@, AMERICA_MERIDA@),
        ("America/Metlakatla"@, AMERICA_METLAKATLA@),
        ("America/Mexico_City"@, AMERICA_MEXICO_CITY@),
        ("America/Miquelon"@, AMERICA_MIQUELON@),
        ("America/Moncton"@, AMERICA_MONCTON@),
        ("America/Monterrey"@, AMERICA_MONTERREY@),
        ("America/Montevideo"@, AMERICA_MONTEVIDEO@),
        ("America/Montreal"@, AMERICA_TORONTO@),
        ("America/Montserrat"@, AMERICA_PUERTO_RICO@),
        ("America/Nassau"@, AMERICA_TORONTO@),
        ("America/New_York"@, AMERICA_NEW_YORK@),
        ("America/Nipigon"@, AMERICA_TORONTO@),
        ("America/Nome"@, AMERICA_NOME@),
        ("America/Noronha"@, AMERICA_NORONHA@),
        ("America/North_Dakota/Beulah"@, AMERICA_NORTH_DAKOTA_BEULAH@),
        ("America/North_Dakota/Center"@, AMERICA_NORTH_DAKOTA_CENTER@),
        ("America/North_Dakota/New_Salem"@, AMERICA_NORTH_DAKOTA_NEW_SALEM@),
        ("America/Nuuk"@, AMERICA_NUUK@),
        ("America/Ojinaga"@, AMERICA_OJINAGA@),
        ("America/Panama"@, AMERICA_PANAMA@),
        ("America/Pangnirtung"@, AMERICA_IQALUIT@),
        ("America/Paramaribo"@, AMERICA_PARAMARIBO@),
        ("America/Phoenix"@, AMERICA_PHOENIX@),
        ("America/Port-au-Prince"@, AMERICA_PORT_MINUS_AU_MINUS_PRINCE@),
        ("America/Port_of_Spain"@, AMERICA_PUERTO_RICO@),
        ("America/Porto_Acre"@, AMERICA_RIO_BRANCO@),
        ("America/Porto_Velho"@, AMERICA_PORTO_VELHO@),
        ("America/Puerto_Rico"@, AMERICA_PUERTO_RICO@),
        ("America/Punta_Arenas"@, AMERICA_PUNTA_ARENAS@),
        ("America/Rainy_River"@, AMERICA_WINNIPEG@),
        ("America/Rankin_Inlet"@, AMERICA_RANKIN_INLET@),
        ("America/Recife"@, AMERICA_RECIFE@),
        ("America/Regina"@, AMERICA_REGINA@),
        ("America/Resolute"@, AMERICA_RESOLUTE@),
        ("America/Rio_Branco"@, AMERICA_RIO_BRANCO@),
        ("America/Rosario"@, AMERICA_ARGENTINA_CORDOBA@),
        ("America/Santa_Isabel"@, AMERICA_TIJUANA@),
        ("America/Santarem"@, AMERICA_SANTAREM@),
        ("America/Santiago"@, AMERICA_SANTIAGO@),
        ("America/Santo_Domingo"@, AMERICA_SANTO_DOMINGO@),
        ("America/Sao_Paulo"@, AMERICA_SAO_PAULO@),
        ("America/Scoresbysund"@, AMERICA_SCORESBYSUND@),
        ("America/Shiprock"@, AMERICA_DENVER@),
        ("America/Sitka"@, AMERICA_SITKA@),
        ("America/St_Barthelemy"@, AMERICA_PUERTO_RICO@),
        ("America/St_Johns"@, AMERICA_ST_JOHNS@),
        ("America/St_Kitts"@, AMERICA_PUERTO_RICO@),
        ("America/St_Lucia"@, AMERICA_PUERTO_RICO@),
        ("America/St_Thomas"@, AMERICA_PUERTO_RICO@),
        ("America/St_Vincent"@, AMERICA_PUERTO_RICO@),
        ("America/Swift_Current"@, AMERICA_SWIFT_CURRENT@),
        ("America/Tegucigalpa"@, AMERICA_TEGUCIGALPA@),
        ("America/Thule"@, AMERICA_THULE@),
        ("America/Thunder_Bay"@, AMERICA_TORONTO@),
        ("America/Tijuana"@, AMERICA_TIJUANA@),
        ("America/Toronto"@, AMERICA_TORONTO@),
        ("America/Tortola"@, AMERICA_PUERTO_RICO@),
        ("America/Vancouver"@, AMERICA_VANCOUVER@),
        ("America/Virgin"@, AMERICA_PUERTO_RICO@),
        ("America/Whitehorse"@, AMERICA_WHITEHORSE@),
        ("America/Winnipeg"@, AMERICA_WINNIPEG@),
        ("America/Yakutat"@, AMERICA_YAKUTAT@),
        ("America/Yellowknife"@, AMERICA_EDMONTON@),
        ("Antarctica/Casey"@, ANTARCTICA_CASEY@),
        ("Antarctica/Davis"@, ANTARCTICA_DAVIS@),
        ("Antarctica/DumontDUrville"@, PACIFIC_PORT_MORESBY@),
        ("Antarctica/Macquarie"@, ANTARCTICA_MACQUARIE@),
        ("Antarctica/Mawson"@, ANTARCTICA_MAWSON@),
        ("Antarctica/McMurdo"@, PACIFIC_AUCKLAND@),
        ("Antarctica/Palmer"@, ANTARCTICA_PALMER@),
        ("Antarctica/Rothera"@, ANTARCTICA_ROTHERA@),
        ("Antarctica/South_Pole"@, PACIFIC_AUCKLAND@),
        ("Antarctica/Syowa"@, ASIA_RIYADH@),
        ("Antarctica/Troll"@, ANTARCTICA_TROLL@),
        ("Antarctica/Vostok"@, ANTARCTICA_VOSTOK@),
        ("Arctic/Longyearbyen"@, EUROPE_BERLIN@),
        ("Asia/Aden"@, ASIA_RIYADH@),
        ("Asia/Almaty"@, ASIA_ALMATY@),
        ("Asia/Amman"@, ASIA_AMMAN@),
        ("Asia/Anadyr"@, ASIA_ANADYR@),
        ("Asia/Aqtau"@, ASIA_AQTAU@),
        ("Asia/Aqtobe"@, ASIA_AQTOBE@),
        ("Asia/Ashgabat"@, ASIA_ASHGABAT@),
        ("Asia/Ashkhabad"@, ASIA_ASHGABAT@),
        ("Asia/Atyrau"@, ASIA_ATYRAU@),
        ("Asia/Baghdad"@, ASIA_BAGHDAD@),
        ("Asia/Bahrain"@, ASIA_QATAR@),
        ("Asia/Baku"@, ASIA_BAKU@),
        ("Asia/Bangkok"@, ASIA_BANGKOK@),
        ("Asia/Barnaul"@, ASIA_BARNAUL@),
        ("Asia/Beirut"@, ASIA_BEIRUT@),
        ("Asia/Bishkek"@, ASIA_BISHKEK@),
        ("Asia/Brunei"@, ASIA_KUCHING@),
        ("Asia/Calcutta"@, ASIA_KOLKATA@),
        ("Asia/Chita"@, ASIA_CHITA@),
        ("Asia/Choibalsan"@, ASIA_ULAANBAATAR@),
        ("Asia/Chongqing"@, ASIA_SHANGHAI@),
        ("Asia/Chungking"@, ASIA_SHANGHAI@),
        ("Asia/Colombo"@, ASIA_COLOMBO@),
        ("Asia/Dacca"@, ASIA_DHAKA@),
        ("Asia/Damascus"@, ASIA_DAMASCUS@),
        ("Asia/Dhaka"@, ASIA_DHAKA@),
        ("Asia/Dili"@, ASIA_DILI@),
        ("Asia/Dubai"@, ASIA_DUBAI@),
        ("Asia/Dushanbe"@, ASIA_DUSHANBE@),
        ("Asia/Famagusta"@, ASIA_FAMAGUSTA@),
        ("Asia/Gaza"@, ASIA_GAZA@),
        ("Asia/Harbin"@, ASIA_SHANGHAI@),
        ("Asia/Hebron"@, ASIA_HEBRON@),
        ("Asia/Ho_Chi_Minh"@, ASIA_HO_CHI_MINH@),
        ("Asia/Hong_Kong"@, ASIA_HONG_KONG@),
        ("Asia/Hovd"@, ASIA_HOVD@),
        ("Asia/Irkutsk"@, ASIA_IRKUTSK@),
        ("Asia/Istanbul"@, EUROPE_ISTANBUL@),
        ("Asia/Jakarta"@, ASIA_JAKARTA@),
        ("Asia/Jayapura"@, ASIA_JAYAPURA@),
        ("Asia/Jerusalem"@, ASIA_JERUSALEM@),
        ("Asia/Kabul"@, ASIA_KABUL@),
        ("Asia/Kamchatka"@, ASIA_KAMCHATKA@),
        ("Asia/Karachi"@, ASIA_KARACHI@),
        ("Asia/Kashgar"@, ASIA_URUMQI@),
        ("Asia/Kathmandu"@, ASIA_KATHMANDU@),
        ("Asia/Katmandu"@, ASIA_KATHMANDU@),
        ("Asia/Khandyga"@, ASIA_KHANDYGA@),
        ("Asia/Kolkata"@, ASIA_KOLKATA@),
        ("Asia/Krasnoyarsk"@, ASIA_KRASNOYARSK@),
        ("Asia/Kuala_Lumpur"@, ASIA_SINGAPORE@),
        ("Asia/Kuching"@, ASIA_KUCHING@),
        ("Asia/Kuwait"@, ASIA_RIYADH@),
        ("Asia/Macao"@, ASIA_MACAU@),
        ("Asia/Macau"@, ASIA_MACAU@),
        ("Asia/Magadan"@, ASIA_MAGADAN@),
        ("Asia/Makassar"@, ASIA_MAKASSAR@),
        ("Asia/Manila"@, ASIA_MANILA@),
        ("Asia/Muscat"@, ASIA_DUBAI@),
        ("Asia/Nicosia"@, ASIA_NICOSIA@),
        ("Asia/Novokuznetsk"@, ASIA_NOVOKUZNETSK@),
        ("Asia/Novosibirsk"@, ASIA_NOVOSIBIRSK@),
        ("Asia/Omsk"@, ASIA_OMSK@),
        ("Asia/Oral"@, ASIA_ORAL@),
        ("Asia/Phnom_Penh"@, ASIA_BANGKOK@),
        ("Asia/Pontianak"@, ASIA_PONTIANAK@),
        ("Asia/Pyongyang"@, ASIA_PYONGYANG@),
        ("Asia/Qatar"@, ASIA_QATAR@),
        ("Asia/Qostanay"@, ASIA_QOSTANAY@),
        ("Asia/Qyzylorda"@, ASIA_QYZYLORDA@),
        ("Asia/Rangoon"@, ASIA_YANGON@),
        ("Asia/Riyadh"@, ASIA_RIYADH@),
        ("Asia/Saigon"@, ASIA_HO_CHI_MINH@),
        ("Asia/Sakhalin"@, ASIA_SAKHALIN@),
        ("Asia/Samarkand"@, ASIA_SAMARKAND@),
        ("Asia/Seoul"@, ASIA_SEOUL@),
        ("Asia/Shanghai"@, ASIA_SHANGHAI@),
        ("Asia/Singapore"@, ASIA_SINGAPORE@),
        ("Asia/Srednekolymsk"@, ASIA_SREDNEKOLYMSK@),
        ("Asia/Taipei"@, ASIA_TAIPEI@),
        ("Asia/Tashkent"@, ASIA_TASHKENT@),
        ("Asia/Tbilisi"@, ASIA_TBILISI@),
        ("Asia/Tehran"@, ASIA_TEHRAN@),
        ("Asia/Tel_Aviv"@, ASIA_JERUSALEM@),
        ("Asia/Thimbu"@, ASIA_THIMPHU@),
        ("Asia/Thimphu"@, ASIA_THIMPHU@),
        ("Asia/Tokyo"@, ASIA_TOKYO@),
        ("Asia/Tomsk"@, ASIA_TOMSK@),
        ("Asia/Ujung_Pandang"@, ASIA_MAKASSAR@),
        ("Asia/Ulaanbaatar"@, ASIA_ULAANBAATAR@),
        ("Asia/Ulan_Bator"@, ASIA_ULAANBAATAR@),
        ("Asia/Urumqi"@, ASIA_URUMQI@),
        ("Asia/Ust-Nera"@, ASIA_UST_MINUS_NERA@),
        ("Asia/Vientiane"@, ASIA_BANGKOK@),
        ("Asia/Vladivostok"@, ASIA_VLADIVOSTOK@),
        ("Asia/Yakutsk"@, ASIA_YAKUTSK@),
        ("Asia/Yangon"@, ASIA_YANGON@),
        ("Asia/Yekaterinburg"@, ASIA_YEKATERINBURG@),
        ("Asia/Yerevan"@, ASIA_YEREVAN@),
        ("Atlantic/Azores"@, ATLANTIC_AZORES@),
        ("Atlantic/Bermuda"@, ATLANTIC_BERMUDA@),
        ("Atlantic/Canary"@, ATLANTIC_CANARY@),
        ("Atlantic/Cape_Verde"@, ATLANTIC_CAPE_VERDE@),
        ("Atlantic/Faeroe"@, ATLANTIC_FAROE@),
        ("Atlantic/Faroe"@, ATLANTIC_FAROE@),
        ("Atlantic/Jan_Mayen"@, EUROPE_BERLIN@),
        ("Atlantic/Madeira"@, ATLANTIC_MADEIRA@),
        ("Atlantic/Reykjavik"@, AFRICA_ABIDJAN@),
        ("Atlantic/South_Georgia"@, ATLANTIC_SOUTH_GEORGIA@),
        ("Atlantic/St_Helena"@, AFRICA_ABIDJAN@),
        ("Atlantic/Stanley"@, ATLANTIC_STANLEY@),
        ("Australia/ACT"@, AUSTRALIA_SYDNEY@),
        ("Australia/Adelaide"@, AUSTRALIA_ADELAIDE@),
        ("Australia/Brisbane"@, AUSTRALIA_BRISBANE@),
        ("Australia/Broken_Hill"@, AUSTRALIA_BROKEN_HILL@),
        ("Australia/Canberra"@, AUSTRALIA_SYDNEY@),
        ("Australia/Currie"@, AUSTRALIA_HOBART@),
        ("Australia/Darwin"@, AUSTRALIA_DARWIN@),
        ("Australia/Eucla"@, AUSTRALIA_EUCLA@),
        ("Australia/Hobart"@, AUSTRALIA_HOBART@),
        ("Australia/LHI"@, AUSTRALIA_LORD_HOWE@),
        ("Australia/Lindeman"@, AUSTRALIA_LINDEMAN@),
        ("Australia/Lord_Howe"@, AUSTRALIA_LORD_HOWE@),
        ("Australia/Melbourne"@, AUSTRALIA_MELBOURNE@),
        ("Australia/NSW"@, AUSTRALIA_SYDNEY@),
        ("Australia/North"@, AUSTRALIA_DARWIN@),
        ("Australia/Perth"@, AUSTRALIA_PERTH@),
        ("Australia/Queensland"@, AUSTRALIA_BRISBANE@),
        ("Australia/South"@, AUSTRALIA_ADELAIDE@),
        ("Australia/Sydney"@, AUSTRALIA_SYDNEY@),
        ("Australia/Tasmania"@, AUSTRALIA_HOBART@),
        ("Australia/Victoria"@, AUSTRALIA_MELBOURNE@),
        ("Australia/West"@, AUSTRALIA_PERTH@),
        ("Australia/Yancowinna"@, AUSTRALIA_BROKEN_HILL@),
        ("Brazil/Acre"@, AMERICA_RIO_BRANCO@),
        ("Brazil/DeNoronha"@, AMERICA_NORONHA@),
        ("Brazil/East"@, AMERICA_SAO_PAULO@),
        ("Brazil/West"@, AMERICA_MANAUS@),
        ("CET"@, EUROPE_BRUSSELS@),
        ("CST6CDT"@, AMERICA_CHICAGO@),
        ("Canada/Atlantic"@, AMERICA_HALIFAX@),
        ("Canada/Central"@, AMERICA_WINNIPEG@),
        ("Canada/Eastern"@, AMERICA_TORONTO@),
        ("Canada/Mountain"@, AMERICA_EDMONTON@),
        ("Canada/Newfoundland"@, AMERICA_ST_JOHNS@),
        ("Canada/Pacific"@, AMERICA_VANCOUVER@),
        ("Canada/Saskatchewan"@, AMERICA_REGINA@),
        ("Canada/Yukon"@, AMERICA_WHITEHORSE@),
        ("Chile/Continental"@, AMERICA_SANTIAGO@),
        ("Chile/EasterIsland"@, PACIFIC_EASTER@),
        ("Cuba"@, AMERICA_HAVANA@),
        ("EET"@, EUROPE_ATHENS@),
        ("EST"@, AMERICA_PANAMA@),
        ("EST5EDT"@, AMERICA_NEW_YORK@),
        ("Egypt"@, AFRICA_CAIRO@),
        ("Eire"@, EUROPE_DUBLIN@),
        ("Etc/GMT"@, ETC_GMT@),
        ("Etc/GMT+0"@, ETC_GMT@),
        ("Etc/GMT+1"@, ETC_GMT_PLUS_1@),
        ("Etc/GMT+10"@, ETC_GMT_PLUS_10@),
        ("Etc/GMT+11"@, ETC_GMT_PLUS_11@),
        ("Etc/GMT+12"@, ETC_GMT_PLUS_12@),
        ("Etc/GMT+2"@, ETC_GMT_PLUS_2@),
        ("Etc/GMT+3"@, ETC_GMT_PLUS_3@),
        ("Etc/GMT+4"@, ETC_GMT_PLUS_4@),
        ("Etc/GMT+5"@, ETC_GMT_PLUS_5@),
        ("Etc/GMT+6"@, ETC_GMT_PLUS_6@),
        ("Etc/GMT+7"@, ETC_GMT_PLUS_7@),
        ("Etc/GMT+8"@, ETC_GMT_PLUS_8@),
        ("Etc/GMT+9"@, ETC_GMT_PLUS_9@),
        ("Etc/GMT-0"@, ETC_GMT@),
        ("Etc/GMT-1"@, ETC_GMT_MINUS_1@),
        ("Etc/GMT-10"@, ETC_GMT_MINUS_10@),
        ("Etc/GMT-11"@, ETC_GMT_MINUS_11@),
        ("Etc/GMT-12"@, ETC_GMT_MINUS_12@),
        ("Etc/GMT-13"@, ETC_GMT_MINUS_13@),
        ("Etc/GMT-14"@, ETC_GMT_MINUS_14@),
        ("Etc/GMT-2"@, ETC_GMT_MINUS_2@),
        ("Etc/GMT-3"@, ETC_GMT_MINUS_3@),
        ("Etc/GMT-4"@, ETC_GMT_MINUS_4@),
        ("Etc/GMT-5"@, ETC_GMT_MINUS_5@),
        ("Etc/GMT-6"@, ETC_GMT_MINUS_6@),
        ("Etc/GMT-7"@, ETC_GMT_MINUS_7@),
        ("Etc/GMT-8"@, ETC_GMT_MINUS_8@),
        ("Etc/GMT-9"@, ETC_GMT_MINUS_9@),
        ("Etc/GMT0"@, ETC_GMT@),
        ("Etc/Greenwich"@, ETC_GMT@),
        ("Etc/UCT"@, ETC_UTC@),
        ("Etc/UTC"@, ETC_UTC@),
        ("Etc/Universal"@, ETC_UTC@),
        ("Etc/Zulu"@, ETC_UTC@),
        ("Europe/Amsterdam"@, EUROPE_BRUSSELS@),
        ("Europe/Andorra"@, EUROPE_ANDORRA@),
        ("Europe/Astrakhan"@, EUROPE_ASTRAKHAN@),
        ("Europe/Athens"@, EUROPE_ATHENS@),
        ("Europe/Belfast"@, EUROPE_LONDON@),
        ("Europe/Belgrade"@, EUROPE_BELGRADE@),
        ("Europe/Berlin"@, EUROPE_BERLIN@),
        ("Europe/Bratislava"@, EUROPE_PRAGUE@),
        ("Europe/Brussels"@, EUROPE_BRUSSELS@),
        ("Europe/Bucharest"@, EUROPE_BUCHAREST@),
        ("Europe/Budapest"@, EUROPE_BUDAPEST@),
        ("Europe/Busingen"@, EUROPE_ZURICH@),
        ("Europe/Chisinau"@, EUROPE_CHISINAU@),
        ("Europe/Copenhagen"@, EUROPE_BERLIN@),
        ("Europe/Dublin"@, EUROPE_DUBLIN@),
        ("Europe/Gibraltar"@, EUROPE_GIBRALTAR@),
        ("Europe/Guernsey"@, EUROPE_LONDON@),
        ("Europe/Helsinki"@, EUROPE_HELSINKI@),
        ("Europe/Isle_of_Man"@, EUROPE_LONDON@),
        ("Europe/Istanbul"@, EUROPE_ISTANBUL@),
        ("Europe/Jersey"@, EUROPE_LONDON@),
        ("Europe/Kaliningrad"@, EUROPE_KALININGRAD@),
        ("Europe/Kiev"@, EUROPE_KYIV@),
        ("Europe/Kirov"@, EUROPE_KIROV@),
        ("Europe/Kyiv"@, EUROPE_KYIV@),
        ("Europe/Lisbon"@, EUROPE_LISBON@),
        ("Europe/Ljubljana"@, EUROPE_BELGRADE@),
        ("Europe/London"@, EUROPE_LONDON@),
        ("Europe/Luxembourg"@, EUROPE_BRUSSELS@),
        ("Europe/Madrid"@, EUROPE_MADRID@),
        ("Europe/Malta"@, EUROPE_MALTA@),
        ("Europe/Mariehamn"@, EUROPE_HELSINKI@),
        ("Europe/Minsk"@, EUROPE_MINSK@),
        ("Europe/Monaco"@, EUROPE_PARIS@),
        ("Europe/Moscow"@, EUROPE_MOSCOW@),
        ("Europe/Nicosia"@, ASIA_NICOSIA@),
        ("Europe/Oslo"@, EUROPE_BERLIN@),
        ("Europe/Paris"@, EUROPE_PARIS@),
        ("Europe/Podgorica"@, EUROPE_BELGRADE@),
        ("Europe/Prague"@, EUROPE_PRAGUE@),
        ("Europe/Riga"@, EUROPE_RIGA@),
        ("Europe/Rome"@, EUROPE_ROME@),
        ("Europe/Samara"@, EUROPE_SAMARA@),
        ("Europe/San_Marino"@, EUROPE_ROME@),
        ("Europe/Sarajevo"@, EUROPE_BELGRADE@),
        ("Europe/Saratov"@, EUROPE_SARATOV@),
        ("Europe/Simferopol"@, EUROPE_SIMFEROPOL@),
        ("Europe/Skopje"@, EUROPE_BELGRADE@),
        ("Europe/Sofia"@, EUROPE_SOFIA@),
        ("Europe/Stockholm"@, EUROPE_BERLIN@),
        ("Europe/Tallinn"@, EUROPE_TALLINN@),
        ("Europe/Tirane"@, EUROPE_TIRANE@),
        ("Europe/Tiraspol"@, EUROPE_CHISINAU@),
        ("Europe/Ulyanovsk"@, EUROPE_ULYANOVSK@),
        ("Europe/Uzhgorod"@, EUROPE_KYIV@),
        ("Europe/Vaduz"@, EUROPE_ZURICH@),
        ("Europe/Vatican"@, EUROPE_ROME@),
        ("Europe/Vienna"@, EUROPE_VIENNA@),
        ("Europe/Vilnius"@, EUROPE_VILNIUS@),
        ("Europe/Volgograd"@, EUROPE_VOLGOGRAD@),
        ("Europe/Warsaw"@, EUROPE_WARSAW@),
        ("Europe/Zagreb"@, EUROPE_BELGRADE@),
        ("Europe/Zaporozhye"@, EUROPE_KYIV@),
        ("Europe/Zurich"@, EUROPE_ZURICH@),
        ("Factory"@, FACTORY@),
        ("GB"@, EUROPE_LONDON@),
        ("GB-Eire"@, EUROPE_LONDON@),
        ("GMT"@, ETC_GMT@),
        ("GMT+0"@, ETC_GMT@),
        ("GMT-0"@, ETC_GMT@),
        ("GMT0"@, ETC_GMT@),
        ("Greenwich"@, ETC_GMT@),
        ("HST"@, PACIFIC_HONOLULU@),
        ("Hongkong"@, ASIA_HONG_KONG@),
        ("Iceland"@, AFRICA_ABIDJAN@),
        ("Indian/Antananarivo"@, AFRICA_NAIROBI@),
        ("Indian/Chagos"@, INDIAN_CHAGOS@),
        ("Indian/Christmas"@, ASIA_BANGKOK@),
        ("Indian/Cocos"@, ASIA_YANGON@),
        ("Indian/Comoro"@, AFRICA_NAIROBI@),
        ("Indian/Kerguelen"@, INDIAN_MALDIVES@),
        ("Indian/Mahe"@, ASIA_DUBAI@),
        ("Indian/Maldives"@, INDIAN_MALDIVES@),
        ("Indian/Mauritius"@, INDIAN_MAURITIUS@),
        ("Indian/Mayotte"@, AFRICA_NAIROBI@),
        ("Indian/Reunion"@, ASIA_DUBAI@),
        ("Iran"@, ASIA_TEHRAN@),
        ("Israel"@, ASIA_JERUSALEM@),
        ("Jamaica"@, AMERICA_JAMAICA@),
        ("Japan"@, ASIA_TOKYO@),
        ("Kwajalein"@, PACIFIC_KWAJALEIN@),
        ("Libya"@, AFRICA_TRIPOLI@),
        ("MET"@, EUROPE_BRUSSELS@),
        ("MST"@, AMERICA_PHOENIX@),
        ("MST7MDT"@, AMERICA_DENVER@),
        ("Mexico/BajaNorte"@, AMERICA_TIJUANA@),
        ("Mexico/BajaSur"@, AMERICA_MAZATLAN@),
        ("Mexico/General"@, AMERICA_MEXICO_CITY@),
        ("NZ"@, PACIFIC_AUCKLAND@),
        ("NZ-CHAT"@, PACIFIC_CHATHAM@),
        ("Navajo"@, AMERICA_DENVER@),
        ("PRC"@, ASIA_SHANGHAI@),
        ("PST8PDT"@, AMERICA_LOS_ANGELES@),
        ("Pacific/Apia"@, PACIFIC_APIA@),
        ("Pacific/Auckland"@, PACIFIC_AUCKLAND@),
        ("Pacific/Bougainville"@, PACIFIC_BOUGAINVILLE@),
        ("Pacific/Chatham"@, PACIFIC_CHATHAM@),
        ("Pacific/Chuuk"@, PACIFIC_PORT_MORESBY@),
        ("Pacific/Easter"@, PACIFIC_EASTER@),
        ("Pacific/Efate"@, PACIFIC_EFATE@),
        ("Pacific/Enderbury"@, PACIFIC_KANTON@),
        ("Pacific/Fakaofo"@, PACIFIC_FAKAOFO@),
        ("Pacific/Fiji"@, PACIFIC_FIJI@),
        ("Pacific/Funafuti"@, PACIFIC_TARAWA@),
        ("Pacific/Galapagos"@, PACIFIC_GALAPAGOS@),
        ("Pacific/Gambier"@, PACIFIC_GAMBIER@),
        ("Pacific/Guadalcanal"@, PACIFIC_GUADALCANAL@),
        ("Pacific/Guam"@, PACIFIC_GUAM@),
        ("Pacific/Honolulu"@, PACIFIC_HONOLULU@),
        ("Pacific/Johnston"@, PACIFIC_HONOLULU@),
        ("Pacific/Kanton"@, PACIFIC_KANTON@),
        ("Pacific/Kiritimati"@, PACIFIC_KIRITIMATI@),
        ("Pacific/Kosrae"@, PACIFIC_KOSRAE@),
        ("Pacific/Kwajalein"@, PACIFIC_KWAJALEIN@),
        ("Pacific/Majuro"@, PACIFIC_TARAWA@),
        ("Pacific/Marquesas"@, PACIFIC_MARQUESAS@),
        ("Pacific/Midway"@, PACIFIC_PAGO_PAGO@),
        ("Pacific/Nauru"@, PACIFIC_NAURU@),
        ("Pacific/Niue"@, PACIFIC_NIUE@),
        ("Pacific/Norfolk"@, PACIFIC_NORFOLK@),
        ("Pacific/Noumea"@, PACIFIC_NOUMEA@),
        ("Pacific/Pago_Pago"@, PACIFIC_PAGO_PAGO@),
        ("Pacific/Palau"@, PACIFIC_PALAU@),
        ("Pacific/Pitcairn"@, PACIFIC_PITCAIRN@),
        ("Pacific/Pohnpei"@, PACIFIC_GUADALCANAL@),
        ("Pacific/Ponape"@, PACIFIC_GUADALCANAL@),
        ("Pacific/Port_Moresby"@, PACIFIC_PORT_MORESBY@),
        ("Pacific/Rarotonga"@, PACIFIC_RAROTONGA@),
        ("Pacific/Saipan"@, PACIFIC_GUAM@),
        ("Pacific/Samoa"@, PACIFIC_PAGO_PAGO@),
        ("Pacific/Tahiti"@, PACIFIC_TAHITI@),
        ("Pacific/Tarawa"@, PACIFIC_TARAWA@),
        ("Pacific/Tongatapu"@, PACIFIC_TONGATAPU@),
        ("Pacific/Truk"@, PACIFIC_PORT_MORESBY@),
        ("Pacific/Wake"@, PACIFIC_TARAWA@),
        ("Pacific/Wallis"@, PACIFIC_TARAWA@),
        ("Pacific/Yap"@, PACIFIC_PORT_MORESBY@),
        ("Poland"@, EUROPE_WARSAW@),
        ("Portugal"@, EUROPE_LISBON@),
        ("ROC"@, ASIA_TAIPEI@),
        ("ROK"@, ASIA_SEOUL@),
        ("Singapore"@, ASIA_SINGAPORE@),
        ("Turkey"@, EUROPE_ISTANBUL@),
        ("UCT"@, ETC_UTC@),
        ("US/Alaska"@, AMERICA_ANCHORAGE@),
        ("US/Aleutian"@, AMERICA_ADAK@),
        ("US/Arizona"@, AMERICA_PHOENIX@),
        ("US/Central"@, AMERICA_CHICAGO@),
        ("US/East-Indiana"@, AMERICA_INDIANA_INDIANAPOLIS@),
        ("US/Eastern"@, AMERICA_NEW_YORK@),
        ("US/Hawaii"@, PACIFIC_HONOLULU@),
        ("US/Indiana-Starke"@, AMERICA_INDIANA_KNOX@),
        ("US/Michigan"@, AMERICA_DETROIT@),
        ("US/Mountain"@, AMERICA_DENVER@),
        ("US/Pacific"@, AMERICA_LOS_ANGELES@),
        ("US/Samoa"@, PACIFIC_PAGO_PAGO@),
        ("UTC"@, ETC_UTC@),
        ("Universal"@, ETC_UTC@),
        ("W-SU"@, EUROPE_MOSCOW@),
        ("WET"@, EUROPE_LISBON@),
        ("Zulu"@, ETC_UTC@),
    ]
}

/// Names and bytes of a table of entries, as mathematical values.
pub open spec fn entries_view(entries: Seq<(&'static str, &'static [u8])>) -> Seq<
    (Seq<char>, Seq<u8>),
> {
    Seq::new(entries.len(), |i: int| (entries[i].0@, entries[i].1@))
}

/// The bytes of the first entry from place `from` on that has the name.
pub open spec fn find_entry(entries: Seq<(Seq<char>, Seq<u8>)>, name: Seq<char>, from: int)
    -> Option<Seq<u8>>
    decreases entries.len() - from,
{
    if from < 0 || from >= entries.len() {
        None
    } else if entries[from].0 == name {
        Some(entries[from].1)
    } else {
        find_entry(entries, name, from + 1)
    }
}

/// A name is found exactly when an entry from `from` on has it, and then
/// with the bytes of the first entry that does.
pub proof fn lemma_find_entry(entries: Seq<(Seq<char>, Seq<u8>)>, name: Seq<char>, from: int)
    requires
        0 <= from,
    ensures
        find_entry(entries, name, from) is None <==> forall|i: int|
            from <= i < entries.len() ==> (#[trigger] entries[i]).0 != name,
        find_entry(entries, name, from) matches Some(bytes) ==> exists|i: int|
            from <= i < entries.len() && (#[trigger] entries[i]).0 == name && entries[i].1
                == bytes && forall|j: int| from <= j < i ==> (#[trigger] entries[j]).0 != name,
    decreases entries.len() - from,
{
    if from < entries.len() {
        if entries[from].0 == name {
            assert(from <= from < entries.len() && entries[from].0 == name && entries[from].1
                == find_entry(entries, name, from)->0);
        } else {
            lemma_find_entry(entries, name, from + 1);
            if let Some(bytes) = find_entry(entries, name, from + 1) {
                let i = choose|i: int|
                    from + 1 <= i < entries.len() && (#[trigger] entries[i]).0 == name
                        && entries[i].1 == bytes && forall|j: int|
                        from + 1 <= j < i ==> (#[trigger] entries[j]).0 != name;
                assert forall|j: int| from <= j < i implies (#[trigger] entries[j]).0 != name by {}
                assert(from <= i < entries.len() && entries[i].0 == name && entries[i].1 == bytes);
            }
        }
    }
}

/// Returns the release of the time zone database that is bundled.
pub fn version() -> (release: &'static str)
    ensures
        release@ == TZ_DB_VERSION@,
{
    TZ_DB_VERSION
}

/// Returns all bundled entries as pairs of a zone name and the bytes of
/// its file, in the order of the names.
pub fn all() -> (entries: &'static [(&'static str, &'static [u8])])
    ensures
        entries_view(entries@) == bundled_entries(),
{
    let entries: &'static [(&'static str, &'static [u8])] = &[
        ("Africa/Abidjan", &AFRICA_ABIDJAN),
        ("Africa/Accra", &AFRICA_ABIDJAN),
        ("Africa/Addis_Ababa", &AFRICA_NAIROBI),
        ("Africa/Algiers", &AFRICA_ALGIERS),
        ("Africa/Asmara", &AFRICA_NAIROBI),
        ("Africa/Asmera", &AFRICA_NAIROBI),
        ("Africa/Bamako", &AFRICA_ABIDJAN),
        ("Africa/Bangui", &AFRICA_LAGOS),
        ("Africa/Banjul", &AFRICA_ABIDJAN),
        ("Africa/Bissau", &AFRICA_BISSAU),
        ("Africa/Blantyre", &AFRICA_MAPUTO),
        ("Africa/Brazzaville", &AFRICA_LAGOS),
        ("Africa/Bujumbura", &AFRICA_MAPUTO),
        ("Africa/Cairo", &AFRICA_CAIRO),
        ("Africa/Casablanca", &AFRICA_CASABLANCA),
        ("Africa/Ceuta", &AFRICA_CEUTA),
        ("Africa/Conakry", &AFRICA_ABIDJAN),
        ("Africa/Dakar", &AFRICA_ABIDJAN),
        ("Africa/Dar_es_Salaam", &AFRICA_NAIROBI),
        ("Africa/Djibouti", &AFRICA_NAIROBI),
        ("Africa/Douala", &AFRICA_LAGOS),
        ("Africa/El_Aaiun", &AFRICA_EL_AAIUN),
        ("Africa/Freetown", &AFRICA_ABIDJAN),
        ("Africa/Gaborone", &AFRICA_MAPUTO),
        ("Africa/Harare", &AFRICA_MAPUTO),
        ("Africa/Johannesburg", &AFRICA_JOHANNESBURG),
        ("Africa/Juba", &AFRICA_JUBA),
        ("Africa/Kampala", &AFRICA_NAIROBI),
        ("Africa/Khartoum", &AFRICA_KHARTOUM),
        ("Africa/Kigali", &AFRICA_MAPUTO),
        ("Africa/Kinshasa", &AFRICA_LAGOS),
        ("Africa/Lagos", &AFRICA_LAGOS),
        ("Africa/Libreville", &AFRICA_LAGOS),
        ("Africa/Lome", &AFRICA_ABIDJAN),
        ("Africa/Luanda", &AFRICA_LAGOS),
        ("Africa/Lubumbashi", &AFRICA_MAPUTO),
        ("Africa/Lusaka", &AFRICA_MAPUTO),
        ("Africa/Malabo", &AFRICA_LAGOS),
        ("Africa/Maputo", &AFRICA_MAPUTO),
        ("Africa/Maseru", &AFRICA_JOHANNESBURG),
        ("Africa/Mbabane", &AFRICA_JOHANNESBURG),
        ("Africa/Mogadishu", &AFRICA_NAIROBI),
        ("Africa/Monrovia", &AFRICA_MONROVIA),
        ("Africa/Nairobi", &AFRICA_NAIROBI),
        ("Africa/Ndjamena", &AFRICA_NDJAMENA),
        ("Africa/Niamey", &AFRICA_LAGOS),
        ("Africa/Nouakchott", &AFRICA_ABIDJAN),
        ("Africa/Ouagadougou", &AFRICA_ABIDJAN),
        ("Africa/Porto-Novo", &AFRICA_LAGOS),
        ("Africa/Sao_Tome", &AFRICA_SAO_TOME),
        ("Africa/Timbuktu", &AFRICA_ABIDJAN),
        ("Africa/Tripoli", &AFRICA_TRIPOLI),
        ("Africa/Tunis", &AFRICA_TUNIS),
        ("Africa/Windhoek", &AFRICA_WINDHOEK),
        ("America/Adak", &AMERICA_ADAK),
        ("America/Anchorage", &AMERICA_ANCHORAGE),
        ("America/Anguilla", &AMERICA_PUERTO_RICO),
        ("America/Antigua", &AMERICA_PUERTO_RICO),
        ("America/Araguaina", &AMERICA_ARAGUAINA),
        ("America/Argentina/Buenos_Aires", &AMERICA_ARGENTINA_BUENOS_AIRES),
        ("America/Argentina/Catamarca", &AMERICA_ARGENTINA_CATAMARCA),
        ("America/Argentina/ComodRivadavia", &AMERICA_ARGENTINA_CATAMARCA),
        ("America/Argentina/Cordoba", &AMERICA_ARGENTINA_CORDOBA),
        ("America/Argentina/Jujuy", &AMERICA_ARGENTINA_JUJUY),
        ("America/Argentina/La_Rioja", &AMERICA_ARGENTINA_LA_RIOJA),
        ("America/Argentina/Mendoza", &AMERICA_ARGENTINA_MENDOZA),
        ("America/Argentina/Rio_Gallegos", &AMERICA_ARGENTINA_RIO_GALLEGOS),
        ("America/Argentina/Salta", &AMERICA_ARGENTINA_SALTA),
        ("America/Argentina/San_Juan", &AMERICA_ARGENTINA_SAN_JUAN),
        ("America/Argentina/San_Luis", &AMERICA_ARGENTINA_SAN_LUIS),
        ("America/Argentina/Tucuman", &AMERICA_ARGENTINA_TUCUMAN),
        ("America/Argentina/Ushuaia", &AMERICA_ARGENTINA_USHUAIA),
        ("America/Aruba", &AMERICA_PUERTO_RICO),
        ("America/Asuncion", &AMERICA_ASUNCION),
        ("America/Atikokan", &AMERICA_PANAMA),
        ("America/Atka", &AMERICA_ADAK),
        ("America/Bahia", &AMERICA_BAHIA),
        ("America/Bahia_Banderas", &AMERICA_BAHIA_BANDERAS),
        ("America/Barbados", &AMERICA_BARBADOS),
        ("America/Belem", &AMERICA_BELEM),
        ("America/Belize", &AMERICA_BELIZE),
        ("America/Blanc-Sablon", &AMERICA_PUERTO_RICO),
        ("America/Boa_Vista", &AMERICA_BOA_VISTA),
        ("America/Bogota", &AMERICA_BOGOTA),
        ("America/Boise", &AMERICA_BOISE),
        ("America/Buenos_Aires", &AMERICA_ARGENTINA_BUENOS_AIRES),
        ("America/Cambridge_Bay", &AMERICA_CAMBRIDGE_BAY),
        ("America/Campo_Grande", &AMERICA_CAMPO_GRANDE),
        ("America/Cancun", &AMERICA_CANCUN),
        ("America/Caracas", &AMERICA_CARACAS),
        ("America/Catamarca", &AMERICA_ARGENTINA_CATAMARCA),
        ("America/Cayenne", &AMERICA_CAYENNE),
        ("America/Cayman", &AMERICA_PANAMA),
        ("America/Chicago", &AMERICA_CHICAGO),
        ("America/Chihuahua", &AMERICA_CHIHUAHUA),
        ("America/Ciudad_Juarez", &AMERICA_CIUDAD_JUAREZ),
        ("America/Coral_Harbour", &AMERICA_PANAMA),
        ("America/Cordoba", &AMERICA_ARGENTINA_CORDOBA),
        ("America/Costa_Rica", &AMERICA_COSTA_RICA),
        ("America/Coyhaique", &AMERICA_COYHAIQUE),
        ("America/Creston", &AMERICA_PHOENIX),
        ("America/Cuiaba", &AMERICA_CUIABA),
        ("America/Curacao", &AMERICA_PUERTO_RICO),
        ("America/Danmarkshavn", &AMERICA_DANMARKSHAVN),
        ("America/Dawson", &AMERICA_DAWSON),
        ("America/Dawson_Creek", &AMERICA_DAWSON_CREEK),
        ("America/Denver", &AMERICA_DENVER),
        ("America/Detroit", &AMERICA_DETROIT),
        ("America/Dominica", &AMERICA_PUERTO_RICO),
        ("America/Edmonton", &AMERICA_EDMONTON),
        ("America/Eirunepe", &AMERICA_EIRUNEPE),
        ("America/El_Salvador", &AMERICA_EL_SALVADOR),
        ("America/Ensenada", &AMERICA_TIJUANA),
        ("America/Fort_Nelson", &AMERICA_FORT_NELSON),
        ("America/Fort_Wayne", &AMERICA_INDIANA_INDIANAPOLIS),
        ("America/Fortaleza", &AMERICA_FORTALEZA),
        ("America/Glace_Bay", &AMERICA_GLACE_BAY),
        ("America/Godthab", &AMERICA_NUUK),
        ("America/Goose_Bay", &AMERICA_GOOSE_BAY),
        ("America/Grand_Turk", &AMERICA_GRAND_TURK),
        ("America/Grenada", &AMERICA_PUERTO_RICO),
        ("America/Guadeloupe", &AMERICA_PUERTO_RICO),
        ("America/Guatemala", &AMERICA_GUATEMALA),
        ("America/Guayaquil", &AMERICA_GUAYAQUIL),
        ("America/Guyana", &AMERICA_GUYANA),
        ("America/Halifax", &AMERICA_HALIFAX),
        ("America/Havana", &AMERICA_HAVANA),
        ("America/Hermosillo", &AMERICA_HERMOSILLO),
        ("America/Indiana/Indianapolis", &AMERICA_INDIANA_INDIANAPOLIS),
        ("America/Indiana/Knox", &AMERICA_INDIANA_KNOX),
        ("America/Indiana/Marengo", &AMERICA_INDIANA_MARENGO),
        ("America/Indiana/Petersburg", &AMERICA_INDIANA_PETERSBURG),
        ("America/Indiana/Tell_City", &AMERICA_INDIANA_TELL_CITY),
        ("America/Indiana/Vevay", &AMERICA_INDIANA_VEVAY),
        ("America/Indiana/Vincennes", &AMERICA_INDIANA_VINCENNES),
        ("America/Indiana/Winamac", &AMERICA_INDIANA_WINAMAC),
        ("America/Indianapolis", &AMERICA_INDIANA_INDIANAPOLIS),
        ("America/Inuvik", &AMERICA_INUVIK),
        ("America/Iqaluit", &AMERICA_IQALUIT),
        ("America/Jamaica", &AMERICA_JAMAICA),
        ("America/Jujuy", &AMERICA_ARGENTINA_JUJUY),
        ("America/Juneau", &AMERICA_JUNEAU),
        ("America/Kentucky/Louisville", &AMERICA_KENTUCKY_LOUISVILLE),
        ("America/Kentucky/Monticello", &AMERICA_KENTUCKY_MONTICELLO),
        ("America/Knox_IN", &AMERICA_INDIANA_KNOX),
        ("America/Kralendijk", &AMERICA_PUERTO_RICO),
        ("America/La_Paz", &AMERICA_LA_PAZ),
        ("America/Lima", &AMERICA_LIMA),
        ("America/Los_Angeles", &AMERICA_LOS_ANGELES),
        ("America/Louisville", &AMERICA_KENTUCKY_LOUISVILLE),
        ("America/Lower_Princes", &AMERICA_PUERTO_RICO),
        ("America/Maceio", &AMERICA_MACEIO),
        ("America/Managua", &AMERICA_MANAGUA),
        ("America/Manaus", &AMERICA_MANAUS),
        ("America/Marigot", &AMERICA_PUERTO_RICO),
        ("America/Martinique", &AMERICA_MARTINIQUE),
        ("America/Matamoros", &AMERICA_MATAMOROS),
        ("America/Mazatlan", &AMERICA_MAZATLAN),
        ("America/Mendoza", &AMERICA_ARGENTINA_MENDOZA),
        ("America/Menominee", &AMERICA_MENOMINEE),
        ("America/Merida", &AMERICA_MERIDA),
        ("America/Metlakatla", &AMERICA_METLAKATLA),
        ("America/Mexico_City", &AMERICA_MEXICO_CITY),
        ("America/Miquelon", &AMERICA_MIQUELON),
        ("America/Moncton", &AMERICA_MONCTON),
        ("America/Monterrey", &AMERICA_MONTERREY),
        ("America/Montevideo", &AMERICA_MONTEVIDEO),
        ("America/Montreal", &AMERICA_TORONTO),
        ("America/Montserrat", &AMERICA_PUERTO_RICO),
        ("America/Nassau", &AMERICA_TORONTO),
        ("America/New_York", &AMERICA_NEW_YORK),
        ("America/Nipigon", &AMERICA_TORONTO),
        ("America/Nome", &AMERICA_NOME),
        ("America/Noronha", &AMERICA_NORONHA),
        ("America/North_Dakota/Beulah", &AMERICA_NORTH_DAKOTA_BEULAH),
        ("America/North_Dakota/Center", &AMERICA_NORTH_DAKOTA_CENTER),
        ("America/North_Dakota/New_Salem", &AMERICA_NORTH_DAKOTA_NEW_SALEM),
        ("America/Nuuk", &AMERICA_NUUK),
        ("America/Ojinaga", &AMERICA_OJINAGA),
        ("America/Panama", &AMERICA_PANAMA),
        ("America/Pangnirtung", &AMERICA_IQALUIT),
        ("America/Paramaribo", &AMERICA_PARAMARIBO),
        ("America/Phoenix", &AMERICA_PHOENIX),
        ("America/Port-au-Prince", &AMERICA_PORT_MINUS_AU_MINUS_PRINCE),
        ("America/Port_of_Spain", &AMERICA_PUERTO_RICO),
        ("America/Porto_Acre", &AMERICA_RIO_BRANCO),
        ("America/Porto_Velho", &AMERICA_PORTO_VELHO),
        ("America/Puerto_Rico", &AMERICA_PUERTO_RICO),
        ("America/Punta_Arenas", &AMERICA_PUNTA_ARENAS),
        ("America/Rainy_River", &AMERICA_WINNIPEG),
        ("America/Rankin_Inlet", &AMERICA_RANKIN_INLET),
        ("America/Recife", &AMERICA_RECIFE),
        ("America/Regina", &AMERICA_REGINA),
        ("America/Resolute", &AMERICA_RESOLUTE),
        ("America/Rio_Branco", &AMERICA_RIO_BRANCO),
        ("America/Rosario", &AMERICA_ARGENTINA_CORDOBA),
        ("America/Santa_Isabel", &AMERICA_TIJUANA),
        ("America/Santarem", &AMERICA_SANTAREM),
        ("America/Santiago", &AMERICA_SANTIAGO),
        ("America/Santo_Domingo", &AMERICA_SANTO_DOMINGO),
        ("America/Sao_Paulo", &AMERICA_SAO_PAULO),
        ("America/Scoresbysund", &AMERICA_SCORESBYSUND),
        ("America/Shiprock", &AMERICA_DENVER),
        ("America/Sitka", &AMERICA_SITKA),
        ("America/St_Barthelemy", &AMERICA_PUERTO_RICO),
        ("America/St_Johns", &AMERICA_ST_JOHNS),
        ("America/St_Kitts", &AMERICA_PUERTO_RICO),
        ("America/St_Lucia", &AMERICA_PUERTO_RICO),
        ("America/St_Thomas", &AMERICA_PUERTO_RICO),
        ("America/St_Vincent", &AMERICA_PUERTO_RICO),
        ("America/Swift_Current", &AMERICA_SWIFT_CURRENT),
        ("America/Tegucigalpa", &AMERICA_TEGUCIGALPA),
        ("America/Thule", &AMERICA_THULE),
        ("America/Thunder_Bay", &AMERICA_TORONTO),
        ("America/Tijuana", &AMERICA_TIJUANA),
        ("America/Toronto", &AMERICA_TORONTO),
        ("America/Tortola", &AMERICA_PUERTO_RICO),
        ("America/Vancouver", &AMERICA_VANCOUVER),
        ("America/Virgin", &AMERICA_PUERTO_RICO),
        ("America/Whitehorse", &AMERICA_WHITEHORSE),
        ("America/Winnipeg", &AMERICA_WINNIPEG),
        ("America/Yakutat", &AMERICA_YAKUTAT),
        ("America/Yellowknife", &AMERICA_EDMONTON),
        ("Antarctica/Casey", &ANTARCTICA_CASEY),
        ("Antarctica/Davis", &ANTARCTICA_DAVIS),
        ("Antarctica/DumontDUrville", &PACIFIC_PORT_MORESBY),
        ("Antarctica/Macquarie", &ANTARCTICA_MACQUARIE),
        ("Antarctica/Mawson", &ANTARCTICA_MAWSON),
        ("Antarctica/McMurdo", &PACIFIC_AUCKLAND),
        ("Antarctica/Palmer", &ANTARCTICA_PALMER),
        ("Antarctica/Rothera", &ANTARCTICA_ROTHERA),
        ("Antarctica/South_Pole", &PACIFIC_AUCKLAND),
        ("Antarctica/Syowa", &ASIA_RIYADH),
        ("Antarctica/Troll", &ANTARCTICA_TROLL),
        ("Antarctica/Vostok", &ANTARCTICA_VOSTOK),
        ("Arctic/Longyearbyen", &EUROPE_BERLIN),
        ("Asia/Aden", &ASIA_RIYADH),
        ("Asia/Almaty", &ASIA_ALMATY),
        ("Asia/Amman", &ASIA_AMMAN),
        ("Asia/Anadyr", &ASIA_ANADYR),
        ("Asia/Aqtau", &ASIA_AQTAU),
        ("Asia/Aqtobe", &ASIA_AQTOBE),
        ("Asia/Ashgabat", &ASIA_ASHGABAT),
        ("Asia/Ashkhabad", &ASIA_ASHGABAT),
        ("Asia/Atyrau", &ASIA_ATYRAU),
        ("Asia/Baghdad", &ASIA_BAGHDAD),
        ("Asia/Bahrain", &ASIA_QATAR),
        ("Asia/Baku", &ASIA_BAKU),
        ("Asia/Bangkok", &ASIA_BANGKOK),
        ("Asia/Barnaul", &ASIA_BARNAUL),
        ("Asia/Beirut", &ASIA_BEIRUT),
        ("Asia/Bishkek", &ASIA_BISHKEK),
        ("Asia/Brunei", &ASIA_KUCHING),
        ("Asia/Calcutta", &ASIA_KOLKATA),
        ("Asia/Chita", &ASIA_CHITA),
        ("Asia/Choibalsan", &ASIA_ULAANBAATAR),
        ("Asia/Chongqing", &ASIA_SHANGHAI),
        ("Asia/Chungking", &ASIA_SHANGHAI),
        ("Asia/Colombo", &ASIA_COLOMBO),
        ("Asia/Dacca", &ASIA_DHAKA),
        ("Asia/Damascus", &ASIA_DAMASCUS),
        ("Asia/Dhaka", &ASIA_DHAKA),
        ("Asia/Dili", &ASIA_DILI),
        ("Asia/Dubai", &ASIA_DUBAI),
        ("Asia/Dushanbe", &ASIA_DUSHANBE),
        ("Asia/Famagusta", &ASIA_FAMAGUSTA),
        ("Asia/Gaza", &ASIA_GAZA),
        ("Asia/Harbin", &ASIA_SHANGHAI),
        ("Asia/Hebron", &ASIA_HEBRON),
        ("Asia/Ho_Chi_Minh", &ASIA_HO_CHI_MINH),
        ("Asia/Hong_Kong", &ASIA_HONG_KONG),
        ("Asia/Hovd", &ASIA_HOVD),
        ("Asia/Irkutsk", &ASIA_IRKUTSK),
        ("Asia/Istanbul", &EUROPE_ISTANBUL),
        ("Asia/Jakarta", &ASIA_JAKARTA),
        ("Asia/Jayapura", &ASIA_JAYAPURA),
        ("Asia/Jerusalem", &ASIA_JERUSALEM),
        ("Asia/Kabul", &ASIA_KABUL),
        ("Asia/Kamchatka", &ASIA_KAMCHATKA),
        ("Asia/Karachi", &ASIA_KARACHI),
        ("Asia/Kashgar", &ASIA_URUMQI),
        ("Asia/Kathmandu", &ASIA_KATHMANDU),
        ("Asia/Katmandu", &ASIA_KATHMANDU),
        ("Asia/Khandyga", &ASIA_KHANDYGA),
        ("Asia/Kolkata", &ASIA_KOLKATA),
        ("Asia/Krasnoyarsk", &ASIA_KRASNOYARSK),
        ("Asia/Kuala_Lumpur", &ASIA_SINGAPORE),
        ("Asia/Kuching", &ASIA_KUCHING),
        ("Asia/Kuwait", &ASIA_RIYADH),
        ("Asia/Macao", &ASIA_MACAU),
        ("Asia/Macau", &ASIA_MACAU),
        ("Asia/Magadan", &ASIA_MAGADAN),
        ("Asia/Makassar", &ASIA_MAKASSAR),
        ("Asia/Manila", &ASIA_MANILA),
        ("Asia/Muscat", &ASIA_DUBAI),
        ("Asia/Nicosia", &ASIA_NICOSIA),
        ("Asia/Novokuznetsk", &ASIA_NOVOKUZNETSK),
        ("Asia/Novosibirsk", &ASIA_NOVOSIBIRSK),
        ("Asia/Omsk", &ASIA_OMSK),
        ("Asia/Oral", &ASIA_ORAL),
        ("Asia/Phnom_Penh", &ASIA_BANGKOK),
        ("Asia/Pontianak", &ASIA_PONTIANAK),
        ("Asia/Pyongyang", &ASIA_PYONGYANG),
        ("Asia/Qatar", &ASIA_QATAR),
        ("Asia/Qostanay", &ASIA_QOSTANAY),
        ("Asia/Qyzylorda", &ASIA_QYZYLORDA),
        ("Asia/Rangoon", &ASIA_YANGON),
        ("Asia/Riyadh", &ASIA_RIYADH),
        ("Asia/Saigon", &ASIA_HO_CHI_MINH),
        ("Asia/Sakhalin", &ASIA_SAKHALIN),
        ("Asia/Samarkand", &ASIA_SAMARKAND),
        ("Asia/Seoul", &ASIA_SEOUL),
        ("Asia/Shanghai", &ASIA_SHANGHAI),
        ("Asia/Singapore", &ASIA_SINGAPORE),
        ("Asia/Srednekolymsk", &ASIA_SREDNEKOLYMSK),
        ("Asia/Taipei", &ASIA_TAIPEI),
        ("Asia/Tashkent", &ASIA_TASHKENT),
        ("Asia/Tbilisi", &ASIA_TBILISI),
        ("Asia/Tehran", &ASIA_TEHRAN),
        ("Asia/Tel_Aviv", &ASIA_JERUSALEM),
        ("Asia/Thimbu", &ASIA_THIMPHU),
        ("Asia/Thimphu", &ASIA_THIMPHU),
        ("Asia/Tokyo", &ASIA_TOKYO),
        ("Asia/Tomsk", &ASIA_TOMSK),
        ("Asia/Ujung_Pandang", &ASIA_MAKASSAR),
        ("Asia/Ulaanbaatar", &ASIA_ULAANBAATAR),
        ("Asia/Ulan_Bator", &ASIA_ULAANBAATAR),
        ("Asia/Urumqi", &ASIA_URUMQI),
        ("Asia/Ust-Nera", &ASIA_UST_MINUS_NERA),
        ("Asia/Vientiane", &ASIA_BANGKOK),
        ("Asia/Vladivostok", &ASIA_VLADIVOSTOK),
        ("Asia/Yakutsk", &ASIA_YAKUTSK),
        ("Asia/Yangon", &ASIA_YANGON),
        ("Asia/Yekaterinburg", &ASIA_YEKATERINBURG),
        ("Asia/Yerevan", &ASIA_YEREVAN),
        ("Atlantic/Azores", &ATLANTIC_AZORES),
        ("Atlantic/Bermuda", &ATLANTIC_BERMUDA),
        ("Atlantic/Canary", &ATLANTIC_CANARY),
        ("Atlantic/Cape_Verde", &ATLANTIC_CAPE_VERDE),
        ("Atlantic/Faeroe", &ATLANTIC_FAROE),
        ("Atlantic/Faroe", &ATLANTIC_FAROE),
        ("Atlantic/Jan_Mayen", &EUROPE_BERLIN),
        ("Atlantic/Madeira", &ATLANTIC_MADEIRA),
        ("Atlantic/Reykjavik", &AFRICA_ABIDJAN),
        ("Atlantic/South_Georgia", &ATLANTIC_SOUTH_GEORGIA),
        ("Atlantic/St_Helena", &AFRICA_ABIDJAN),
        ("Atlantic/Stanley", &ATLANTIC_STANLEY),
        ("Australia/ACT", &AUSTRALIA_SYDNEY),
        ("Australia/Adelaide", &AUSTRALIA_ADELAIDE),
        ("Australia/Brisbane", &AUSTRALIA_BRISBANE),
        ("Australia/Broken_Hill", &AUSTRALIA_BROKEN_HILL),
        ("Australia/Canberra", &AUSTRALIA_SYDNEY),
        ("Australia/Currie", &AUSTRALIA_HOBART),
        ("Australia/Darwin", &AUSTRALIA_DARWIN),
        ("Australia/Eucla", &AUSTRALIA_EUCLA),
        ("Australia/Hobart", &AUSTRALIA_HOBART),
        ("Australia/LHI", &AUSTRALIA_LORD_HOWE),
        ("Australia/Lindeman", &AUSTRALIA_LINDEMAN),
        ("Australia/Lord_Howe", &AUSTRALIA_LORD_HOWE),
        ("Australia/Melbourne", &AUSTRALIA_MELBOURNE),
        ("Australia/NSW", &AUSTRALIA_SYDNEY),
        ("Australia/North", &AUSTRALIA_DARWIN),
        ("Australia/Perth", &AUSTRALIA_PERTH),
        ("Australia/Queensland", &AUSTRALIA_BRISBANE),
        ("Australia/South", &AUSTRALIA_ADELAIDE),
        ("Australia/Sydney", &AUSTRALIA_SYDNEY),
        ("Australia/Tasmania", &AUSTRALIA_HOBART),
        ("Australia/Victoria", &AUSTRALIA_MELBOURNE),
        ("Australia/West", &AUSTRALIA_PERTH),
        ("Australia/Yancowinna", &AUSTRALIA_BROKEN_HILL),
        ("Brazil/Acre", &AMERICA_RIO_BRANCO),
        ("Brazil/DeNoronha", &AMERICA_NORONHA),
        ("Brazil/East", &AMERICA_SAO_PAULO),
        ("Brazil/West", &AMERICA_MANAUS),
        ("CET", &EUROPE_BRUSSELS),
        ("CST6CDT", &AMERICA_CHICAGO),
        ("Canada/Atlantic", &AMERICA_HALIFAX),
        ("Canada/Central", &AMERICA_WINNIPEG),
        ("Canada/Eastern", &AMERICA_TORONTO),
        ("Canada/Mountain", &AMERICA_EDMONTON),
        ("Canada/Newfoundland", &AMERICA_ST_JOHNS),
        ("Canada/Pacific", &AMERICA_VANCOUVER),
        ("Canada/Saskatchewan", &AMERICA_REGINA),
        ("Canada/Yukon", &AMERICA_WHITEHORSE),
        ("Chile/Continental", &AMERICA_SANTIAGO),
        ("Chile/EasterIsland", &PACIFIC_EASTER),
        ("Cuba", &AMERICA_HAVANA),
        ("EET", &EUROPE_ATHENS),
        ("EST", &AMERICA_PANAMA),
        ("EST5EDT", &AMERICA_NEW_YORK),
        ("Egypt", &AFRICA_CAIRO),
        ("Eire", &EUROPE_DUBLIN),
        ("Etc/GMT", &ETC_GMT),
        ("Etc/GMT+0", &ETC_GMT),
        ("Etc/GMT+1", &ETC_GMT_PLUS_1),
        ("Etc/GMT+10", &ETC_GMT_PLUS_10),
        ("Etc/GMT+11", &ETC_GMT_PLUS_11),
        ("Etc/GMT+12", &ETC_GMT_PLUS_12),
        ("Etc/GMT+2", &ETC_GMT_PLUS_2),
        ("Etc/GMT+3", &ETC_GMT_PLUS_3),
        ("Etc/GMT+4", &ETC_GMT_PLUS_4),
        ("Etc/GMT+5", &ETC_GMT_PLUS_5),
        ("Etc/GMT+6", &ETC_GMT_PLUS_6),
        ("Etc/GMT+7", &ETC_GMT_PLUS_7),
        ("Etc/GMT+8", &ETC_GMT_PLUS_8),
        ("Etc/GMT+9", &ETC_GMT_PLUS_9),
        ("Etc/GMT-0", &ETC_GMT),
        ("Etc/GMT-1", &ETC_GMT_MINUS_1),
        ("Etc/GMT-10", &ETC_GMT_MINUS_10),
        ("Etc/GMT-11", &ETC_GMT_MINUS_11),
        ("Etc/GMT-12", &ETC_GMT_MINUS_12),
        ("Etc/GMT-13", &ETC_GMT_MINUS_13),
        ("Etc/GMT-14", &ETC_GMT_MINUS_14),
        ("Etc/GMT-2", &ETC_GMT_MINUS_2),
        ("Etc/GMT-3", &ETC_GMT_MINUS_3),
        ("Etc/GMT-4", &ETC_GMT_MINUS_4),
        ("Etc/GMT-5", &ETC_GMT_MINUS_5),
        ("Etc/GMT-6", &ETC_GMT_MINUS_6),
        ("Etc/GMT-7", &ETC_GMT_MINUS_7),
        ("Etc/GMT-8", &ETC_GMT_MINUS_8),
        ("Etc/GMT-9", &ETC_GMT_MINUS_9),
        ("Etc/GMT0", &ETC_GMT),
        ("Etc/Greenwich", &ETC_GMT),
        ("Etc/UCT", &ETC_UTC),
        ("Etc/UTC", &ETC_UTC),
        ("Etc/Universal", &ETC_UTC),
        ("Etc/Zulu", &ETC_UTC),
        ("Europe/Amsterdam", &EUROPE_BRUSSELS),
        ("Europe/Andorra", &EUROPE_ANDORRA),
        ("Europe/Astrakhan", &EUROPE_ASTRAKHAN),
        ("Europe/Athens", &EUROPE_ATHENS),
        ("Europe/Belfast", &EUROPE_LONDON),
        ("Europe/Belgrade", &EUROPE_BELGRADE),
        ("Europe/Berlin", &EUROPE_BERLIN),
        ("Europe/Bratislava", &EUROPE_PRAGUE),
        ("Europe/Brussels", &EUROPE_BRUSSELS),
        ("Europe/Bucharest", &EUROPE_BUCHAREST),
        ("Europe/Budapest", &EUROPE_BUDAPEST),
        ("Europe/Busingen", &EUROPE_ZURICH),
        ("Europe/Chisinau", &EUROPE_CHISINAU),
        ("Europe/Copenhagen", &EUROPE_BERLIN),
        ("Europe/Dublin", &EUROPE_DUBLIN),
        ("Europe/Gibraltar", &EUROPE_GIBRALTAR),
        ("Europe/Guernsey", &EUROPE_LONDON),
        ("Europe/Helsinki", &EUROPE_HELSINKI),
        ("Europe/Isle_of_Man", &EUROPE_LONDON),
        ("Europe/Istanbul", &EUROPE_ISTANBUL),
        ("Europe/Jersey", &EUROPE_LONDON),
        ("Europe/Kaliningrad", &EUROPE_KALININGRAD),
        ("Europe/Kiev", &EUROPE_KYIV),
        ("Europe/Kirov", &EUROPE_KIROV),
        ("Europe/Kyiv", &EUROPE_KYIV),
        ("Europe/Lisbon", &EUROPE_LISBON),
        ("Europe/Ljubljana", &EUROPE_BELGRADE),
        ("Europe/London", &EUROPE_LONDON),
        ("Europe/Luxembourg", &EUROPE_BRUSSELS),
        ("Europe/Madrid", &EUROPE_MADRID),
        ("Europe/Malta", &EUROPE_MALTA),
        ("Europe/Mariehamn", &EUROPE_HELSINKI),
        ("Europe/Minsk", &EUROPE_MINSK),
        ("Europe/Monaco", &EUROPE_PARIS),
        ("Europe/Moscow", &EUROPE_MOSCOW),
        ("Europe/Nicosia", &ASIA_NICOSIA),
        ("Europe/Oslo", &EUROPE_BERLIN),
        ("Europe/Paris", &EUROPE_PARIS),
        ("Europe/Podgorica", &EUROPE_BELGRADE),
        ("Europe/Prague", &EUROPE_PRAGUE),
        ("Europe/Riga", &EUROPE_RIGA),
        ("Europe/Rome", &EUROPE_ROME),
        ("Europe/Samara", &EUROPE_SAMARA),
        ("Europe/San_Marino", &EUROPE_ROME),
        ("Europe/Sarajevo", &EUROPE_BELGRADE),
        ("Europe/Saratov", &EUROPE_SARATOV),
        ("Europe/Simferopol", &EUROPE_SIMFEROPOL),
        ("Europe/Skopje", &EUROPE_BELGRADE),
        ("Europe/Sofia", &EUROPE_SOFIA),
        ("Europe/Stockholm", &EUROPE_BERLIN),
        ("Europe/Tallinn", &EUROPE_TALLINN),
        ("Europe/Tirane", &EUROPE_TIRANE),
        ("Europe/Tiraspol", &EUROPE_CHISINAU),
        ("Europe/Ulyanovsk", &EUROPE_ULYANOVSK),
        ("Europe/Uzhgorod", &EUROPE_KYIV),
        ("Europe/Vaduz", &EUROPE_ZURICH),
        ("Europe/Vatican", &EUROPE_ROME),
        ("Europe/Vienna", &EUROPE_VIENNA),
        ("Europe/Vilnius", &EUROPE_VILNIUS),
        ("Europe/Volgograd", &EUROPE_VOLGOGRAD),
        ("Europe/Warsaw", &EUROPE_WARSAW),
        ("Europe/Zagreb", &EUROPE_BELGRADE),
        ("Europe/Zaporozhye", &EUROPE_KYIV),
        ("Europe/Zurich", &EUROPE_ZURICH),
        ("Factory", &FACTORY),
        ("GB", &EUROPE_LONDON),
        ("GB-Eire", &EUROPE_LONDON),
        ("GMT", &ETC_GMT),
        ("GMT+0", &ETC_GMT),
        ("GMT-0", &ETC_GMT),
        ("GMT0", &ETC_GMT),
        ("Greenwich", &ETC_GMT),
        ("HST", &PACIFIC_HONOLULU),
        ("Hongkong", &ASIA_HONG_KONG),
        ("Iceland", &AFRICA_ABIDJAN),
        ("Indian/Antananarivo", &AFRICA_NAIROBI),
        ("Indian/Chagos", &INDIAN_CHAGOS),
        ("Indian/Christmas", &ASIA_BANGKOK),
        ("Indian/Cocos", &ASIA_YANGON),
        ("Indian/Comoro", &AFRICA_NAIROBI),
        ("Indian/Kerguelen", &INDIAN_MALDIVES),
        ("Indian/Mahe", &ASIA_DUBAI),
        ("Indian/Maldives", &INDIAN_MALDIVES),
        ("Indian/Mauritius", &INDIAN_MAURITIUS),
        ("Indian/Mayotte", &AFRICA_NAIROBI),
        ("Indian/Reunion", &ASIA_DUBAI),
        ("Iran", &ASIA_TEHRAN),
        ("Israel", &ASIA_JERUSALEM),
        ("Jamaica", &AMERICA_JAMAICA),
        ("Japan", &ASIA_TOKYO),
        ("Kwajalein", &PACIFIC_KWAJALEIN),
        ("Libya", &AFRICA_TRIPOLI),
        ("MET", &EUROPE_BRUSSELS),
        ("MST", &AMERICA_PHOENIX),
        ("MST7MDT", &AMERICA_DENVER),
        ("Mexico/BajaNorte", &AMERICA_TIJUANA),
        ("Mexico/BajaSur", &AMERICA_MAZATLAN),
        ("Mexico/General", &AMERICA_MEXICO_CITY),
        ("NZ", &PACIFIC_AUCKLAND),
        ("NZ-CHAT", &PACIFIC_CHATHAM),
        ("Navajo", &AMERICA_DENVER),
        ("PRC", &ASIA_SHANGHAI),
        ("PST8PDT", &AMERICA_LOS_ANGELES),
        ("Pacific/Apia", &PACIFIC_APIA),
        ("Pacific/Auckland", &PACIFIC_AUCKLAND),
        ("Pacific/Bougainville", &PACIFIC_BOUGAINVILLE),
        ("Pacific/Chatham", &PACIFIC_CHATHAM),
        ("Pacific/Chuuk", &PACIFIC_PORT_MORESBY),
        ("Pacific/Easter", &PACIFIC_EASTER),
        ("Pacific/Efate", &PACIFIC_EFATE),
        ("Pacific/Enderbury", &PACIFIC_KANTON),
        ("Pacific/Fakaofo", &PACIFIC_FAKAOFO),
        ("Pacific/Fiji", &PACIFIC_FIJI),
        ("Pacific/Funafuti", &PACIFIC_TARAWA),
        ("Pacific/Galapagos", &PACIFIC_GALAPAGOS),
        ("Pacific/Gambier", &PACIFIC_GAMBIER),
        ("Pacific/Guadalcanal", &PACIFIC_GUADALCANAL),
        ("Pacific/Guam", &PACIFIC_GUAM),
        ("Pacific/Honolulu", &PACIFIC_HONOLULU),
        ("Pacific/Johnston", &PACIFIC_HONOLULU),
        ("Pacific/Kanton", &PACIFIC_KANTON),
        ("Pacific/Kiritimati", &PACIFIC_KIRITIMATI),
        ("Pacific/Kosrae", &PACIFIC_KOSRAE),
        ("Pacific/Kwajalein", &PACIFIC_KWAJALEIN),
        ("Pacific/Majuro", &PACIFIC_TARAWA),
        ("Pacific/Marquesas", &PACIFIC_MARQUESAS),
        ("Pacific/Midway", &PACIFIC_PAGO_PAGO),
        ("Pacific/Nauru", &PACIFIC_NAURU),
        ("Pacific/Niue", &PACIFIC_NIUE),
        ("Pacific/Norfolk", &PACIFIC_NORFOLK),
        ("Pacific/Noumea", &PACIFIC_NOUMEA),
        ("Pacific/Pago_Pago", &PACIFIC_PAGO_PAGO),
        ("Pacific/Palau", &PACIFIC_PALAU),
        ("Pacific/Pitcairn", &PACIFIC_PITCAIRN),
        ("Pacific/Pohnpei", &PACIFIC_GUADALCANAL),
        ("Pacific/Ponape", &PACIFIC_GUADALCANAL),
        ("Pacific/Port_Moresby", &PACIFIC_PORT_MORESBY),
        ("Pacific/Rarotonga", &PACIFIC_RAROTONGA),
        ("Pacific/Saipan", &PACIFIC_GUAM),
        ("Pacific/Samoa", &PACIFIC_PAGO_PAGO),
        ("Pacific/Tahiti", &PACIFIC_TAHITI),
        ("Pacific/Tarawa", &PACIFIC_TARAWA),
        ("Pacific/Tongatapu", &PACIFIC_TONGATAPU),
        ("Pacific/Truk", &PACIFIC_PORT_MORESBY),
        ("Pacific/Wake", &PACIFIC_TARAWA),
        ("Pacific/Wallis", &PACIFIC_TARAWA),
        ("Pacific/Yap", &PACIFIC_PORT_MORESBY),
        ("Poland", &EUROPE_WARSAW),
        ("Portugal", &EUROPE_LISBON),
        ("ROC", &ASIA_TAIPEI),
        ("ROK", &ASIA_SEOUL),
        ("Singapore", &ASIA_SINGAPORE),
        ("Turkey", &EUROPE_ISTANBUL),
        ("UCT", &ETC_UTC),
        ("US/Alaska", &AMERICA_ANCHORAGE),
        ("US/Aleutian", &AMERICA_ADAK),
        ("US/Arizona", &AMERICA_PHOENIX),
        ("US/Central", &AMERICA_CHICAGO),
        ("US/East-Indiana", &AMERICA_INDIANA_INDIANAPOLIS),
        ("US/Eastern", &AMERICA_NEW_YORK),
        ("US/Hawaii", &PACIFIC_HONOLULU),
        ("US/Indiana-Starke", &AMERICA_INDIANA_KNOX),
        ("US/Michigan", &AMERICA_DETROIT),
        ("US/Mountain", &AMERICA_DENVER),
        ("US/Pacific", &AMERICA_LOS_ANGELES),
        ("US/Samoa", &PACIFIC_PAGO_PAGO),
        ("UTC", &ETC_UTC),
        ("Universal", &ETC_UTC),
        ("W-SU", &EUROPE_MOSCOW),
        ("WET", &EUROPE_LISBON),
        ("Zulu", &ETC_UTC),
    ];
    assert(entries_view(entries@) =~= bundled_entries());
    entries
}

/// Whether two strings hold the same characters.
pub fn same_text(a: &str, b: &str) -> (same: bool)
    ensures
        same == (a@ == b@),
{
    let x: &[u8] = a.as_bytes();
    let y: &[u8] = b.as_bytes();
    proof {
        vstd::utf8::encode_utf8_decode_utf8(a@);
        vstd::utf8::encode_utf8_decode_utf8(b@);
    }
    if x.len() != y.len() {
        return false;
    }
    let mut i: usize = 0;
    while i < x.len()
        invariant
            i <= x@.len(),
            x@.len() == y@.len(),
            x@ == a.spec_bytes(),
            y@ == b.spec_bytes(),
            forall|k: int| 0 <= k < i ==> x@[k] == y@[k],
        decreases x@.len() - i,
    {
        if x[i] != y[i] {
            return false;
        }
        i = i + 1;
    }
    assert(x@ =~= y@);
    true
}

/// Decodes the bundled zone of the given name.
///
/// Gives [`Error::InvalidTimeZoneFileName`] exactly when no bundled entry
/// has the name, and otherwise what decoding the entry's bytes gives.
pub fn parse(name: &str) -> (r: Result<Tz, Error>)
    ensures
        match find_entry(bundled_entries(), name@, 0) {
            None => r == Err::<Tz, Error>(Error::InvalidTimeZoneFileName),
            Some(bytes) => match r {
                Ok(zone) => spec_decode(name@, bytes) == Ok::<TzView, Error>(zone@) && zone@.wf(),
                Err(e) => spec_decode(name@, bytes) == Err::<TzView, Error>(e),
            },
        },
{
    let entries = all();
    let ghost table = bundled_entries();
    let mut i: usize = 0;
    while i < entries.len()
        invariant
            i <= entries@.len(),
            entries_view(entries@) == table,
            table == bundled_entries(),
            find_entry(table, name@, 0) == find_entry(table, name@, i as int),
        decreases entries@.len() - i,
    {
        let (entry_name, bytes) = entries[i];
        assert(table[i as int] == (entries@[i as int].0@, entries@[i as int].1@));
        if same_text(entry_name, name) {
            assert(find_entry(table, name@, i as int) == Some(bytes@));
            return Tz::parse(name, bytes);
        }
        i = i + 1;
    }
    Err(Error::InvalidTimeZoneFileName)
}

} // verus!
