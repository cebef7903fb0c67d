//! Partner accounts: profiles, contacts and their parameter records.

use vstd::prelude::*;

use crate::api::RequestParams;
use crate::json::{JVal, JsonValue};

use crate::common::Country;
use crate::common::Object;
use crate::common::Timestamp;
use crate::ids::AccountId;

verus! {

#[derive(Clone, Debug, PartialEq, Eq)]
pub enum AccountType {
    Standard,
}

#[derive(Clone, Debug, PartialEq, Eq)]
pub enum AccountStatus {
    Created,
    Activated,
    NeedsClarification,
    UnderReview,
    Suspended,
    Rejected,
}

#[derive(Clone, Debug, PartialEq, Eq, Default)]
pub enum BusinessType {
    #[default]
    Proprietorship,
    Partnership,
    PrivateLimited,
    PublicLimited,
    Llp,
    Ngo,
    Trust,
    Society,
    NotYetRegistered,
    Huf,
}

#[derive(Clone, Debug, PartialEq, Eq)]
pub enum BusinessCategory {
    FinancialServices,
    Education,
    Healthcare,
    Utilities,
    Government,
    Logistics,
    ToursAndTravel,
    Transport,
    Ecommerce,
    Food,
    ITAndSoftware,
    Gaming,
    MediaAndEntertainment,
    Services,
    Housing,
    NotForProfit,
    Social,
    Others,
}

#[derive(Clone, Debug, PartialEq, Eq)]
pub enum BusinessSubCategory {
    // Financial services
    MutualFund,
    Lending,
    Cryptocurrency,
    Insurance,
    NBFC,
    Cooperatives,
    PensionFund,
    Forex,
    Securities,
    Commodities,
    Accounting,
    FinancialAdvisor,
    Crowdfunding,
    Trading,
    Betting,
    GetRichSchemes,
    MoneysendFunding,
    WireTransferAndMoneyOrders,
    TaxPreparationServices,
    TaxPayments,
    DigitalGoods,
    ATMs,

    // Education
    College,
    School,
    University,
    ProfessionalCourses,
    DistanceLearning,
    DayCare,
    Coaching,
    Elearning,
    VocationalAndTradeSchools,
    SportingClubs,
    DanceHallsStudiosAndSchools,
    CorrespondenceSchools,

    // Healthcare
    Pharmacy,
    Clinic,
    Hospital,
    Lab,
    Dietician,
    Fitness,
    HealthCoaching,
    HealthProducts,
    DrugStores,
    HealthcareMarketplace,
    Osteopaths,
    MedicalEquipmentAndSupplyStores,
    PodiatristsAndChiropodists,
    DentistsAndOrthodontists,
    HardwareStores,
    Ophthalmologists,
    OrthopedicGoodsStores,
    TestingLaboratories,
    Doctors,
    HealthPractitionersMedicalServices,

    // Ecommerce
    EcommerceMarketplace,
    Agriculture,
    Books,
    ElectronicsAndFurniture,
    Coupons,
    Rental,
    FashionAndLifestyle,
    Gifting,
    Grocery,
    BabyProducts,
    OfficeSupplies,
    Wholesale,
    ReligiousProducts,
    PetProducts,
    SportsProducts,
    ArtsAndCollectibles,
    SexualWellnessProducts,
    DropShipping,
    CryptoMachinery,
    Tobacco,
    WeaponsAndAmmunitions,
    StampsAndCoinsStores,
    OfficeEquipment,
    // The spelling follows the service's published appendix, typo and all.
    AutomobilePartsAndEquipements,
    GardenSupplyStores,
    HouseholdApplianceStores,
    NonDurableGoods,
    PawnShops,
    ElectricalPartsAndEquipment,
    WigAndToupeeShops,
    GiftNoveltyAndSouvenirShops,
    DutyFreeStores,
    OfficeAndCommercialFurniture,
    DryGoods,
    BooksAndPublications,
    CameraAndPhotographicStores,
    RecordShops,
    MeatSupplyStores,
    LeatherGoodsAndLuggage,
    SnowmobileDealers,
    MenAndBoysClothingStores,
    PaintSupplyStores,
    AutomotiveParts,
    JewelleryAndWatchStores,
    AutoStoreHomeSupplyStores,
    TentStores,
    ShoeStoresRetail,
    PetroleumAndPetroleumProducts,
    DepartmentStores,
    AutomotiveTireStores,
    SportApparelStores,
    VarietyStores,
    ChemicalsAndAlliedProducts,
    CommercialEquipments,
    FireplacePartsAndAccessories,
    FamilyClothingStores,
    FabricAndSewingStores,
    HomeSupplyWarehouse,
    ArtSupplyStores,
    CamperRecreationalAndUtilityTrailerDealers,
    ClocksAndSilverwareStores,
    DiscountStores,
    SchoolSuppliesAndStationery,
    SecondHandStores,
    WatchAndJewelleryRepairStores,
    LiquorStores,
    BoatDealers,
    // The spelling follows the service's published appendix, typo and all.
    OpticiansOpticalGoodsAndEyeglasseStores,
    WholesaleFootwearStores,
    CosmeticStores,
    HomeFurnishingStores,
    AntiqueStores,
    PlumbingAndHeatingEquipment,
    TelecommunicationEquipmentStores,
    WomenClothing,
    Florists,
    ComputerSoftwareStores,
    BuildingMaterialStores,
    CandyNutConfectioneryStores,
    GlassAndWallpaperStores,
    CommercialPhotographyAndGraphicDesignServices,
    VideoGameSupplyStores,
    FuelDealers,
    DraperyAndWindowCoveringsStores,
    HearingAidsStores,
    AutomotivePaintShops,
    DurableGoodsStores,
    UniformsAndCommercialClothingStores,
    FurShops,
    IndustrialSupplies,
    BicycleStores,
    MotorcycleShopsAndDealers,
    ChildrenAndInfantsWearStores,
    WomenAccessoryStores,
    ConstructionMaterials,
    BooksPeriodicalsAndNewspaper,
    FloorCoveringStores,
    CrystalAndGlasswareStores,
    AccessoryAndApparelStores,
    HardwareEquipmentAndSupplyStores,
    ComputerPeripheralEquipmentSoftware,
    AutomobileAndTruckDealers,
    AircraftAndFarmEquipmentDealers,
    AntiqueShopsSalesAndRepairs,
    MusicStores,
    FurnitureAndHomeFurnishingStore,

    // Services
    RepairAndCleaning,
    InteriorDesignAndArchitect,
    MoversAndPackers,
    Legal,
    EventPlanning,
    ServiceCentre,
    Consulting,
    AdAndMarketing,
    ServicesClassifieds,
    MultiLevelMarketing,
    ConstructionServices,
    ArchitecturalServices,
    CarWashes,
    MotorHomeRentals,
    StenographicAndSecretarialSupportServices,
    Chiropractors,
    AutomotiveServiceShops,
    ShoeRepairShops,
    TelecommunicationService,
    Fines,
    SecurityAgencies,
    Tailors,
    TypeSettingAndEngravingServices,
    SmallApplianceRepairShops,
    PhotographyLabs,
    DryCleaners,
    MassageParlors,
    ElectronicRepairShops,
    CleaningAndSanitationServices,
    NursingCareFacilities,
    DirectMarketing,
    Lottery,
    VeterinaryServices,
    // The spelling follows the service's published appendix, typo and all.
    AffliatedAutoRental,
    AlimonyAndChildSupport,
    AirportFlyingFields,
    GolfCourses,
    TireRetreadingAndRepairShops,
    TelevisionCableServices,
    RecreationAndSportingCamps,
    BarberAndBeautyShops,
    AgriculturalCooperatives,
    CarpentryContractors,
    WreckingAndSalvagingServices,
    AutomobileTowingservices,
    VideoTapeRentalStores,
    MiscellaneousRepairShops,
    MotorHomesAndParts,
    HorseOrDogRacing,
    LaundryServices,
    ElectricalContractors,
    DebtMarriagePersonalCounselingService,
    AirConditioningAndRefigerationRepairShops,
    CreditReportingAgencies,
    HeatingAndPlumbingContractors,
    CarpetAndUpholsteryCleaningServices,
    SwimmingPools,
    RoofingAndMetalWorkContractors,
    InternetServiceProviders,
    RecreationalCamps,
    MasonryContractors,
    ExterminatingAndDisinfectingServices,
    AmbulanceServices,
    FuneralServicesAndCrematories,
    MetalServiceCentres,
    CopyingAndBlueprintingServices,
    FuelDispensers,
    WeldingRepair,
    MobileHomeDealers,
    ConcreteWorkContractors,
    BoatRentals,
    PersonalShoppersAndShoppingClubs,
    DoorToDoorSales,
    TravelRelatedDirectMarketing,
    LotteryAndBetting,
    BandsOrchestrasAndMiscellaneousEntertainers,
    FurnitureRepairAndRefinishing,
    Contractors,
    DirectMarketingAndSubscriptionMerchants,
    TypewriterStoresSalesServiceAndRentals,
    RecreationServices,
    DirectMarketingInsuranceServices,
    BusinessServices,
    InboundTelemarketingMerchants,
    PublicWarehousing,
    OutboundTelemarketingMerchants,
    ClothingRentalStores,
    TransportationServices,
    ElectricRazorStores,
    ServiceStations,
    PhotographicStudio,
    ProfessionalServices,

    // Housing
    Developer,
    FacilityManagement,
    RWA,
    Cowoking,
    RealestateClassifieds,
    SpaceRental,

    // Not for profit
    Charity,
    Educational,
    Religious,
    Personal,

    // Social
    MatchMaking,
    SocialNetwork,
    Messaging,
    ProfessionalNetwork,
    NeighbourhoodNetwork,
    PoliticalOrganizations,
    AutomobileAssociationsAndClubs,
    CountryAndAthleticClubs,
    AssociationsAndMembership,

    // Media and entertainment
    VideoOnDemand,
    MusicStreaming,
    Multiplex,
    ContentAndPublishing,
    Ticketing,
    News,
    VideoGameArcades,
    VideoTapeProductionAndDistribution,
    BowlingAlleys,
    BilliardAndPoolEstablishments,
    AmusementParksAndCircuses,
    TicketAgencies,

    // Gaming
    GameDeveloper,
    Esports,
    OnlineCasino,
    FantasySports,
    GamingMarketplace,

    // IT and software
    Saas,
    Paas,
    Iaas,
    ConsultingAndOutsourcing,
    WebDevelopment,
    TechnicalSupport,
    DataProcessing,

    // Food
    OnlineFoodOrdering,
    Restaurant,
    FoodCourt,
    Catering,
    Alcohol,
    RestaurantSearchAndBooking,
    DairyProducts,
    Bakeries,

    // Utilities
    Electricity,
    Gas,
    Telecom,
    Water,
    Cable,
    Broadband,
    DTH,
    InternetProvider,
    BillAndRechargeAggregators,

    // Government
    Central,
    State,
    IntraGovernmentPurchases,
    GovernmentPostalServices,

    // Logistics
    Freight,
    Courier,
    Warehousing,
    Distribution,
    EndToEndLogistics,
    CourierServices,

    // Tours and travel
    Aviation,
    Accommodation,
    OTA,
    TravelAgency,
    TouristAttractionsAndExhibits,
    Timeshares,
    AquariumsDolphinariumsAndSeaquariums,

    // Transport
    CabHailing,
    Bus,
    TrainAndMetro,
    AutomobileRentals,
    CruiseLines,
    ParkingLotsAndGarages,
    Transportation,
    BridgeAndRoadTolls,
    FreightTransport,
    TruckAndUtilityTrailerRentals,
}

#[derive(Clone, Debug, PartialEq, Eq)]
pub struct Address {
    pub street1: String,
    pub street2: String,
    pub city: String,
    pub state: String,
    pub postal_code: u16,
    pub country: Country,
}

#[derive(Clone, Debug, PartialEq, Eq)]
pub struct BusinessAddresses {
    pub operation: Option<Address>,
    pub registered: Address,
}

#[derive(Clone, Debug, PartialEq, Eq)]
pub struct LegalInfo {
    pub pan: Option<String>,
    pub gst: Option<String>,
    pub cin: Option<String>,
}

#[derive(Clone, Debug, PartialEq, Eq)]
pub struct BrandInfo {
    pub color: String,
}

#[derive(Clone, Debug, PartialEq, Eq)]
pub struct BusinessProfile {
    pub category: BusinessCategory,
    pub subcategory: BusinessSubCategory,
    pub description: String,
    pub business_model: String,
    pub addresses: BusinessAddresses,
}

#[derive(Clone, Debug, PartialEq, Eq)]
pub struct ContactDetails {
    pub email: String,
    pub phone: u64,
    pub policy_url: String,
}

#[derive(Clone, Debug, PartialEq, Eq)]
pub struct ContactInfo {
    pub chargeback: ContactDetails,
    pub refund: ContactDetails,
    pub support: ContactDetails,
}

#[derive(Clone, Debug, PartialEq, Eq)]
pub struct App {
    pub name: String,
    pub url: String,
}

#[derive(Clone, Debug, PartialEq, Eq)]
pub struct Apps {
    pub websites: Vec<String>,
    pub android: Vec<App>,
    pub ios: Vec<App>,
}

#[derive(Clone, Debug, PartialEq, Eq)]
pub struct Account {
    pub id: AccountId,
    pub type_: AccountType,
    pub status: AccountStatus,
    pub email: String,
    pub phone: u64,
    pub legal_business_name: String,
    pub customer_facing_business_name: Option<String>,
    pub business_type: BusinessType,
    pub reference_id: Option<String>,
    pub profile: Option<BusinessProfile>,
    pub legal_info: Option<LegalInfo>,
    pub brand: Option<BrandInfo>,
    pub notes: Object,
    pub contact_name: String,
    pub contact_info: Option<ContactInfo>,
    pub apps: Option<Apps>,
    pub activated_at: Option<Timestamp>,
    pub live: bool,
    pub hold_funds: bool,
}

#[derive(Clone, Debug, PartialEq, Eq)]
pub struct CreateAccountApp<'a> {
    pub name: &'a str,
    pub url: &'a str,
}

#[derive(Clone, Debug, PartialEq, Eq)]
pub struct CreateAccountApps<'a> {
    pub websites: &'a [&'a str],
    pub android: &'a [CreateAccountApp<'a>],
    pub ios: &'a [CreateAccountApp<'a>],
}

#[derive(Clone, Debug, PartialEq, Eq)]
pub struct CreateAccountContactDetails<'a> {
    pub email: &'a str,
    pub phone: u64,
    pub policy_url: &'a str,
}

#[derive(Clone, Debug, PartialEq, Eq)]
pub struct CreateAccountContactInfo<'a> {
    pub chargeback: CreateAccountContactDetails<'a>,
    pub refund: CreateAccountContactDetails<'a>,
    pub support: CreateAccountContactDetails<'a>,
}

#[derive(Clone, Debug, PartialEq, Eq)]
pub struct CreateAccountBrandInfo<'a> {
    pub color: &'a str,
}

#[derive(Clone, Debug, PartialEq, Eq, Default)]
pub struct CreateAccountLegalInfo<'a> {
    pub pan: Option<&'a str>,
    pub gst: Option<&'a str>,
    pub cin: Option<&'a str>,
}

#[derive(Clone, Debug, PartialEq, Eq)]
pub struct CreateAccountAddress<'a> {
    pub street1: &'a str,
    pub street2: &'a str,
    pub city: &'a str,
    pub state: &'a str,
    pub postal_code: u16,
    pub country: Country,
}

#[derive(Clone, Debug, PartialEq, Eq)]
pub struct CreateAccountAddresses<'a> {
    pub operation: Option<CreateAccountAddress<'a>>,
    pub registered: CreateAccountAddress<'a>,
}

#[derive(Clone, Debug, PartialEq, Eq)]
pub struct CreateAccountProfile<'a> {
    pub category: BusinessCategory,
    pub subcategory: BusinessSubCategory,
    pub business_model: &'a str,
    pub addresses: CreateAccountAddresses<'a>,
}

#[derive(Clone, Debug, PartialEq, Eq, Default)]
pub struct CreateAccount<'a> {
    pub email: &'a str,
    pub phone: u64,
    pub legal_business_name: &'a str,
    pub customer_facing_business_name: Option<&'a str>,
    pub business_type: BusinessType,
    pub reference_id: Option<&'a str>,
    pub profile: Option<CreateAccountProfile<'a>>,
    pub legal_info: Option<CreateAccountLegalInfo<'a>>,
    pub brand: Option<CreateAccountBrandInfo<'a>>,
    pub notes: Option<Object>,
    pub contact_name: &'a str,
    pub contact_info: Option<CreateAccountContactInfo<'a>>,
    pub apps: Option<CreateAccountApps<'a>>,
}


impl Account {
    /// The request an account fetch sends: a GET of `/accounts/{id}`
    /// on API version `v2`.
    pub fn fetch_request(account_id: &AccountId) -> (r: RequestParams)
        ensures
            r.url@ == "/accounts/"@ + account_id@,
            r.version matches Some(ver) && ver@ == "v2"@,
            r.data is None,
    {
        let mut url = String::from_str("/accounts/");
        url.append(account_id.as_str());
        RequestParams { url, version: Some(String::from_str("v2")), data: None }
    }

    /// The request an account removal sends: a DELETE of
    /// `/accounts/{id}` on API version `v2`.
    pub fn delete_request(account_id: &AccountId) -> (r: RequestParams)
        ensures
            r.url@ == "/accounts/"@ + account_id@,
            r.version matches Some(ver) && ver@ == "v2"@,
            r.data is None,
    {
        let mut url = String::from_str("/accounts/");
        url.append(account_id.as_str());
        RequestParams { url, version: Some(String::from_str("v2")), data: None }
    }
}

/// The wire name of this classification.
pub open spec fn business_type_code(v: BusinessType) -> Seq<char> {
    match v {
        BusinessType::Proprietorship => "proprietorship"@,
        BusinessType::Partnership => "partnership"@,
        BusinessType::PrivateLimited => "private_limited"@,
        BusinessType::PublicLimited => "public_limited"@,
        BusinessType::Llp => "llp"@,
        BusinessType::Ngo => "ngo"@,
        BusinessType::Trust => "trust"@,
        BusinessType::Society => "society"@,
        BusinessType::NotYetRegistered => "not_yet_registered"@,
        BusinessType::Huf => "huf"@,
    }
}

impl BusinessType {
    /// The wire name of this value.
    pub fn as_str(&self) -> (r: &'static str)
        ensures
            r@ == business_type_code(*self),
    {
        match self {
            BusinessType::Proprietorship => "proprietorship",
            BusinessType::Partnership => "partnership",
            BusinessType::PrivateLimited => "private_limited",
            BusinessType::PublicLimited => "public_limited",
            BusinessType::Llp => "llp",
            BusinessType::Ngo => "ngo",
            BusinessType::Trust => "trust",
            BusinessType::Society => "society",
            BusinessType::NotYetRegistered => "not_yet_registered",
            BusinessType::Huf => "huf",
        }
    }
}

/// The wire name of this classification.
pub open spec fn business_category_code(v: BusinessCategory) -> Seq<char> {
    match v {
        BusinessCategory::FinancialServices => "financial_services"@,
        BusinessCategory::Education => "education"@,
        BusinessCategory::Healthcare => "healthcare"@,
        BusinessCategory::Utilities => "utilities"@,
        BusinessCategory::Government => "government"@,
        BusinessCategory::Logistics => "logistics"@,
        BusinessCategory::ToursAndTravel => "tours_and_travel"@,
        BusinessCategory::Transport => "transport"@,
        BusinessCategory::Ecommerce => "ecommerce"@,
        BusinessCategory::Food => "food"@,
        BusinessCategory::ITAndSoftware => "i_t_and_software"@,
        BusinessCategory::Gaming => "gaming"@,
        BusinessCategory::MediaAndEntertainment => "media_and_entertainment"@,
        BusinessCategory::Services => "services"@,
        BusinessCategory::Housing => "housing"@,
        BusinessCategory::NotForProfit => "not_for_profit"@,
        BusinessCategory::Social => "social"@,
        BusinessCategory::Others => "others"@,
    }
}

impl BusinessCategory {
    /// The wire name of this value.
    pub fn as_str(&self) -> (r: &'static str)
        ensures
            r@ == business_category_code(*self),
    {
        match self {
            BusinessCategory::FinancialServices => "financial_services",
            BusinessCategory::Education => "education",
            BusinessCategory::Healthcare => "healthcare",
            BusinessCategory::Utilities => "utilities",
            BusinessCategory::Government => "government",
            BusinessCategory::Logistics => "logistics",
            BusinessCategory::ToursAndTravel => "tours_and_travel",
            BusinessCategory::Transport => "transport",
            BusinessCategory::Ecommerce => "ecommerce",
            BusinessCategory::Food => "food",
            BusinessCategory::ITAndSoftware => "i_t_and_software",
            BusinessCategory::Gaming => "gaming",
            BusinessCategory::MediaAndEntertainment => "media_and_entertainment",
            BusinessCategory::Services => "services",
            BusinessCategory::Housing => "housing",
            BusinessCategory::NotForProfit => "not_for_profit",
            BusinessCategory::Social => "social",
            BusinessCategory::Others => "others",
        }
    }
}

/// The wire name of this classification.
pub open spec fn business_sub_category_code(v: BusinessSubCategory) -> Seq<char> {
    match v {
        BusinessSubCategory::MutualFund => "mutual_fund"@,
        BusinessSubCategory::Lending => "lending"@,
        BusinessSubCategory::Cryptocurrency => "cryptocurrency"@,
        BusinessSubCategory::Insurance => "insurance"@,
        BusinessSubCategory::NBFC => "n_b_f_c"@,
        BusinessSubCategory::Cooperatives => "cooperatives"@,
        BusinessSubCategory::PensionFund => "pension_fund"@,
        BusinessSubCategory::Forex => "forex"@,
        BusinessSubCategory::Securities => "securities"@,
        BusinessSubCategory::Commodities => "commodities"@,
        BusinessSubCategory::Accounting => "accounting"@,
        BusinessSubCategory::FinancialAdvisor => "financial_advisor"@,
        BusinessSubCategory::Crowdfunding => "crowdfunding"@,
        BusinessSubCategory::Trading => "trading"@,
        BusinessSubCategory::Betting => "betting"@,
        BusinessSubCategory::GetRichSchemes => "get_rich_schemes"@,
        BusinessSubCategory::MoneysendFunding => "moneysend_funding"@,
        BusinessSubCategory::WireTransferAndMoneyOrders => "wire_transfer_and_money_orders"@,
        BusinessSubCategory::TaxPreparationServices => "tax_preparation_services"@,
        BusinessSubCategory::TaxPayments => "tax_payments"@,
        BusinessSubCategory::DigitalGoods => "digital_goods"@,
        BusinessSubCategory::ATMs => "a_t_ms"@,
        BusinessSubCategory::College => "college"@,
        BusinessSubCategory::School => "school"@,
        BusinessSubCategory::University => "university"@,
        BusinessSubCategory::ProfessionalCourses => "professional_courses"@,
        BusinessSubCategory::DistanceLearning => "distance_learning"@,
        BusinessSubCategory::DayCare => "day_care"@,
        BusinessSubCategory::Coaching => "coaching"@,
        BusinessSubCategory::Elearning => "elearning"@,
        BusinessSubCategory::VocationalAndTradeSchools => "vocational_and_trade_schools"@,
        BusinessSubCategory::SportingClubs => "sporting_clubs"@,
        BusinessSubCategory::DanceHallsStudiosAndSchools => "dance_halls_studios_and_schools"@,
        BusinessSubCategory::CorrespondenceSchools => "correspondence_schools"@,
        BusinessSubCategory::Pharmacy => "pharmacy"@,
        BusinessSubCategory::Clinic => "clinic"@,
        BusinessSubCategory::Hospital => "hospital"@,
        BusinessSubCategory::Lab => "lab"@,
        BusinessSubCategory::Dietician => "dietician"@,
        BusinessSubCategory::Fitness => "fitness"@,
        BusinessSubCategory::HealthCoaching => "health_coaching"@,
        BusinessSubCategory::HealthProducts => "health_products"@,
        BusinessSubCategory::DrugStores => "drug_stores"@,
        BusinessSubCategory::HealthcareMarketplace => "healthcare_marketplace"@,
        BusinessSubCategory::Osteopaths => "osteopaths"@,
        BusinessSubCategory::MedicalEquipmentAndSupplyStores => "medical_equipment_and_supply_stores"@,
        BusinessSubCategory::PodiatristsAndChiropodists => "podiatrists_and_chiropodists"@,
        BusinessSubCategory::DentistsAndOrthodontists => "dentists_and_orthodontists"@,
        BusinessSubCategory::HardwareStores => "hardware_stores"@,
        BusinessSubCategory::Ophthalmologists => "ophthalmologists"@,
        BusinessSubCategory::OrthopedicGoodsStores => "orthopedic_goods_stores"@,
        BusinessSubCategory::TestingLaboratories => "testing_laboratories"@,
        BusinessSubCategory::Doctors => "doctors"@,
        BusinessSubCategory::HealthPractitionersMedicalServices => "health_practitioners_medical_services"@,
        BusinessSubCategory::EcommerceMarketplace => "ecommerce_marketplace"@,
        BusinessSubCategory::Agriculture => "agriculture"@,
        BusinessSubCategory::Books => "books"@,
        BusinessSubCategory::ElectronicsAndFurniture => "electronics_and_furniture"@,
        BusinessSubCategory::Coupons => "coupons"@,
        BusinessSubCategory::Rental => "rental"@,
        BusinessSubCategory::FashionAndLifestyle => "fashion_and_lifestyle"@,
        BusinessSubCategory::Gifting => "gifting"@,
        BusinessSubCategory::Grocery => "grocery"@,
        BusinessSubCategory::BabyProducts => "baby_products"@,
        BusinessSubCategory::OfficeSupplies => "office_supplies"@,
        BusinessSubCategory::Wholesale => "wholesale"@,
        BusinessSubCategory::ReligiousProducts => "religious_products"@,
        BusinessSubCategory::PetProducts => "pet_products"@,
        BusinessSubCategory::SportsProducts => "sports_products"@,
        BusinessSubCategory::ArtsAndCollectibles => "arts_and_collectibles"@,
        BusinessSubCategory::SexualWellnessProducts => "sexual_wellness_products"@,
        BusinessSubCategory::DropShipping => "drop_shipping"@,
        BusinessSubCategory::CryptoMachinery => "crypto_machinery"@,
        BusinessSubCategory::Tobacco => "tobacco"@,
        BusinessSubCategory::WeaponsAndAmmunitions => "weapons_and_ammunitions"@,
        BusinessSubCategory::StampsAndCoinsStores => "stamps_and_coins_stores"@,
        BusinessSubCategory::OfficeEquipment => "office_equipment"@,
        BusinessSubCategory::AutomobilePartsAndEquipements => "automobile_parts_and_equipements"@,
        BusinessSubCategory::GardenSupplyStores => "garden_supply_stores"@,
        BusinessSubCategory::HouseholdApplianceStores => "household_appliance_stores"@,
        BusinessSubCategory::NonDurableGoods => "non_durable_goods"@,
        BusinessSubCategory::PawnShops => "pawn_shops"@,
        BusinessSubCategory::ElectricalPartsAndEquipment => "electrical_parts_and_equipment"@,
        BusinessSubCategory::WigAndToupeeShops => "wig_and_toupee_shops"@,
        BusinessSubCategory::GiftNoveltyAndSouvenirShops => "gift_novelty_and_souvenir_shops"@,
        BusinessSubCategory::DutyFreeStores => "duty_free_stores"@,
        BusinessSubCategory::OfficeAndCommercialFurniture => "office_and_commercial_furniture"@,
        BusinessSubCategory::DryGoods => "dry_goods"@,
        BusinessSubCategory::BooksAndPublications => "books_and_publications"@,
        BusinessSubCategory::CameraAndPhotographicStores => "camera_and_photographic_stores"@,
        BusinessSubCategory::RecordShops => "record_shops"@,
        BusinessSubCategory::MeatSupplyStores => "meat_supply_stores"@,
        BusinessSubCategory::LeatherGoodsAndLuggage => "leather_goods_and_luggage"@,
        BusinessSubCategory::SnowmobileDealers => "snowmobile_dealers"@,
        BusinessSubCategory::MenAndBoysClothingStores => "men_and_boys_clothing_stores"@,
        BusinessSubCategory::PaintSupplyStores => "paint_supply_stores"@,
        BusinessSubCategory::AutomotiveParts => "automotive_parts"@,
        BusinessSubCategory::JewelleryAndWatchStores => "jewellery_and_watch_stores"@,
        BusinessSubCategory::AutoStoreHomeSupplyStores => "auto_store_home_supply_stores"@,
        BusinessSubCategory::TentStores => "tent_stores"@,
        BusinessSubCategory::ShoeStoresRetail => "shoe_stores_retail"@,
        BusinessSubCategory::PetroleumAndPetroleumProducts => "petroleum_and_petroleum_products"@,
        BusinessSubCategory::DepartmentStores => "department_stores"@,
        BusinessSubCategory::AutomotiveTireStores => "automotive_tire_stores"@,
        BusinessSubCategory::SportApparelStores => "sport_apparel_stores"@,
        BusinessSubCategory::VarietyStores => "variety_stores"@,
        BusinessSubCategory::ChemicalsAndAlliedProducts => "chemicals_and_allied_products"@,
        BusinessSubCategory::CommercialEquipments => "commercial_equipments"@,
        BusinessSubCategory::FireplacePartsAndAccessories => "fireplace_parts_and_accessories"@,
        BusinessSubCategory::FamilyClothingStores => "family_clothing_stores"@,
        BusinessSubCategory::FabricAndSewingStores => "fabric_and_sewing_stores"@,
        BusinessSubCategory::HomeSupplyWarehouse => "home_supply_warehouse"@,
        BusinessSubCategory::ArtSupplyStores => "art_supply_stores"@,
        BusinessSubCategory::CamperRecreationalAndUtilityTrailerDealers => "camper_recreational_and_utility_trailer_dealers"@,
        BusinessSubCategory::ClocksAndSilverwareStores => "clocks_and_silverware_stores"@,
        BusinessSubCategory::DiscountStores => "discount_stores"@,
        BusinessSubCategory::SchoolSuppliesAndStationery => "school_supplies_and_stationery"@,
        BusinessSubCategory::SecondHandStores => "second_hand_stores"@,
        BusinessSubCategory::WatchAndJewelleryRepairStores => "watch_and_jewellery_repair_stores"@,
        BusinessSubCategory::LiquorStores => "liquor_stores"@,
        BusinessSubCategory::BoatDealers => "boat_dealers"@,
        BusinessSubCategory::OpticiansOpticalGoodsAndEyeglasseStores => "opticians_optical_goods_and_eyeglasse_stores"@,
        BusinessSubCategory::WholesaleFootwearStores => "wholesale_footwear_stores"@,
        BusinessSubCategory::CosmeticStores => "cosmetic_stores"@,
        BusinessSubCategory::HomeFurnishingStores => "home_furnishing_stores"@,
        BusinessSubCategory::AntiqueStores => "antique_stores"@,
        BusinessSubCategory::PlumbingAndHeatingEquipment => "plumbing_and_heating_equipment"@,
        BusinessSubCategory::TelecommunicationEquipmentStores => "telecommunication_equipment_stores"@,
        BusinessSubCategory::WomenClothing => "women_clothing"@,
        BusinessSubCategory::Florists => "florists"@,
        BusinessSubCategory::ComputerSoftwareStores => "computer_software_stores"@,
        BusinessSubCategory::BuildingMaterialStores => "building_material_stores"@,
        BusinessSubCategory::CandyNutConfectioneryStores => "candy_nut_confectionery_stores"@,
        BusinessSubCategory::GlassAndWallpaperStores => "glass_and_wallpaper_stores"@,
        BusinessSubCategory::CommercialPhotographyAndGraphicDesignServices => "commercial_photography_and_graphic_design_services"@,
        BusinessSubCategory::VideoGameSupplyStores => "video_game_supply_stores"@,
        BusinessSubCategory::FuelDealers => "fuel_dealers"@,
        BusinessSubCategory::DraperyAndWindowCoveringsStores => "drapery_and_window_coverings_stores"@,
        BusinessSubCategory::HearingAidsStores => "hearing_aids_stores"@,
        BusinessSubCategory::AutomotivePaintShops => "automotive_paint_shops"@,
        BusinessSubCategory::DurableGoodsStores => "durable_goods_stores"@,
        BusinessSubCategory::UniformsAndCommercialClothingStores => "uniforms_and_commercial_clothing_stores"@,
        BusinessSubCategory::FurShops => "fur_shops"@,
        BusinessSubCategory::IndustrialSupplies => "industrial_supplies"@,
        BusinessSubCategory::BicycleStores => "bicycle_stores"@,
        BusinessSubCategory::MotorcycleShopsAndDealers => "motorcycle_shops_and_dealers"@,
        BusinessSubCategory::ChildrenAndInfantsWearStores => "children_and_infants_wear_stores"@,
        BusinessSubCategory::WomenAccessoryStores => "women_accessory_stores"@,
        BusinessSubCategory::ConstructionMaterials => "construction_materials"@,
        BusinessSubCategory::BooksPeriodicalsAndNewspaper => "books_periodicals_and_newspaper"@,
        BusinessSubCategory::FloorCoveringStores => "floor_covering_stores"@,
        BusinessSubCategory::CrystalAndGlasswareStores => "crystal_and_glassware_stores"@,
        BusinessSubCategory::AccessoryAndApparelStores => "accessory_and_apparel_stores"@,
        BusinessSubCategory::HardwareEquipmentAndSupplyStores => "hardware_equipment_and_supply_stores"@,
        BusinessSubCategory::ComputerPeripheralEquipmentSoftware => "computer_peripheral_equipment_software"@,
        BusinessSubCategory::AutomobileAndTruckDealers => "automobile_and_truck_dealers"@,
        BusinessSubCategory::AircraftAndFarmEquipmentDealers => "aircraft_and_farm_equipment_dealers"@,
        BusinessSubCategory::AntiqueShopsSalesAndRepairs => "antique_shops_sales_and_repairs"@,
        BusinessSubCategory::MusicStores => "music_stores"@,
        BusinessSubCategory::FurnitureAndHomeFurnishingStore => "furniture_and_home_furnishing_store"@,
        BusinessSubCategory::RepairAndCleaning => "repair_and_cleaning"@,
        BusinessSubCategory::InteriorDesignAndArchitect => "interior_design_and_architect"@,
        BusinessSubCategory::MoversAndPackers => "movers_and_packers"@,
        BusinessSubCategory::Legal => "legal"@,
        BusinessSubCategory::EventPlanning => "event_planning"@,
        BusinessSubCategory::ServiceCentre => "service_centre"@,
        BusinessSubCategory::Consulting => "consulting"@,
        BusinessSubCategory::AdAndMarketing => "ad_and_marketing"@,
        BusinessSubCategory::ServicesClassifieds => "services_classifieds"@,
        BusinessSubCategory::MultiLevelMarketing => "multi_level_marketing"@,
        BusinessSubCategory::ConstructionServices => "construction_services"@,
        BusinessSubCategory::ArchitecturalServices => "architectural_services"@,
        BusinessSubCategory::CarWashes => "car_washes"@,
        BusinessSubCategory::MotorHomeRentals => "motor_home_rentals"@,
        BusinessSubCategory::StenographicAndSecretarialSupportServices => "stenographic_and_secretarial_support_services"@,
        BusinessSubCategory::Chiropractors => "chiropractors"@,
        BusinessSubCategory::AutomotiveServiceShops => "automotive_service_shops"@,
        BusinessSubCategory::ShoeRepairShops => "shoe_repair_shops"@,
        BusinessSubCategory::TelecommunicationService => "telecommunication_service"@,
        BusinessSubCategory::Fines => "fines"@,
        BusinessSubCategory::SecurityAgencies => "security_agencies"@,
        BusinessSubCategory::Tailors => "tailors"@,
        BusinessSubCategory::TypeSettingAndEngravingServices => "type_setting_and_engraving_services"@,
        BusinessSubCategory::SmallApplianceRepairShops => "small_appliance_repair_shops"@,
        BusinessSubCategory::PhotographyLabs => "photography_labs"@,
        BusinessSubCategory::DryCleaners => "dry_cleaners"@,
        BusinessSubCategory::MassageParlors => "massage_parlors"@,
        BusinessSubCategory::ElectronicRepairShops => "electronic_repair_shops"@,
        BusinessSubCategory::CleaningAndSanitationServices => "cleaning_and_sanitation_services"@,
        BusinessSubCategory::NursingCareFacilities => "nursing_care_facilities"@,
        BusinessSubCategory::DirectMarketing => "direct_marketing"@,
        BusinessSubCategory::Lottery => "lottery"@,
        BusinessSubCategory::VeterinaryServices => "veterinary_services"@,
        BusinessSubCategory::AffliatedAutoRental => "affliated_auto_rental"@,
        BusinessSubCategory::AlimonyAndChildSupport => "alimony_and_child_support"@,
        BusinessSubCategory::AirportFlyingFields => "airport_flying_fields"@,
        BusinessSubCategory::GolfCourses => "golf_courses"@,
        BusinessSubCategory::TireRetreadingAndRepairShops => "tire_retreading_and_repair_shops"@,
        BusinessSubCategory::TelevisionCableServices => "television_cable_services"@,
        BusinessSubCategory::RecreationAndSportingCamps => "recreation_and_sporting_camps"@,
        BusinessSubCategory::BarberAndBeautyShops => "barber_and_beauty_shops"@,
        BusinessSubCategory::AgriculturalCooperatives => "agricultural_cooperatives"@,
        BusinessSubCategory::CarpentryContractors => "carpentry_contractors"@,
        BusinessSubCategory::WreckingAndSalvagingServices => "wrecking_and_salvaging_services"@,
        BusinessSubCategory::AutomobileTowingservices => "automobile_towingservices"@,
        BusinessSubCategory::VideoTapeRentalStores => "video_tape_rental_stores"@,
        BusinessSubCategory::MiscellaneousRepairShops => "miscellaneous_repair_shops"@,
        BusinessSubCategory::MotorHomesAndParts => "motor_homes_and_parts"@,
        BusinessSubCategory::HorseOrDogRacing => "horse_or_dog_racing"@,
        BusinessSubCategory::LaundryServices => "laundry_services"@,
        BusinessSubCategory::ElectricalContractors => "electrical_contractors"@,
        BusinessSubCategory::DebtMarriagePersonalCounselingService => "debt_marriage_personal_counseling_service"@,
        BusinessSubCategory::AirConditioningAndRefigerationRepairShops => "air_conditioning_and_refigeration_repair_shops"@,
        BusinessSubCategory::CreditReportingAgencies => "credit_reporting_agencies"@,
        BusinessSubCategory::HeatingAndPlumbingContractors => "heating_and_plumbing_contractors"@,
        BusinessSubCategory::CarpetAndUpholsteryCleaningServices => "carpet_and_upholstery_cleaning_services"@,
        BusinessSubCategory::SwimmingPools => "swimming_pools"@,
        BusinessSubCategory::RoofingAndMetalWorkContractors => "roofing_and_metal_work_contractors"@,
        BusinessSubCategory::InternetServiceProviders => "internet_service_providers"@,
        BusinessSubCategory::RecreationalCamps => "recreational_camps"@,
        BusinessSubCategory::MasonryContractors => "masonry_contractors"@,
        BusinessSubCategory::ExterminatingAndDisinfectingServices => "exterminating_and_disinfecting_services"@,
        BusinessSubCategory::AmbulanceServices => "ambulance_services"@,
        BusinessSubCategory::FuneralServicesAndCrematories => "funeral_services_and_crematories"@,
        BusinessSubCategory::MetalServiceCentres => "metal_service_centres"@,
        BusinessSubCategory::CopyingAndBlueprintingServices => "copying_and_blueprinting_services"@,
        BusinessSubCategory::FuelDispensers => "fuel_dispensers"@,
        BusinessSubCategory::WeldingRepair => "welding_repair"@,
        BusinessSubCategory::MobileHomeDealers => "mobile_home_dealers"@,
        BusinessSubCategory::ConcreteWorkContractors => "concrete_work_contractors"@,
        BusinessSubCategory::BoatRentals => "boat_rentals"@,
        BusinessSubCategory::PersonalShoppersAndShoppingClubs => "personal_shoppers_and_shopping_clubs"@,
        BusinessSubCategory::DoorToDoorSales => "door_to_door_sales"@,
        BusinessSubCategory::TravelRelatedDirectMarketing => "travel_related_direct_marketing"@,
        BusinessSubCategory::LotteryAndBetting => "lottery_and_betting"@,
        BusinessSubCategory::BandsOrchestrasAndMiscellaneousEntertainers => "bands_orchestras_and_miscellaneous_entertainers"@,
        BusinessSubCategory::FurnitureRepairAndRefinishing => "furniture_repair_and_refinishing"@,
        BusinessSubCategory::Contractors => "contractors"@,
        BusinessSubCategory::DirectMarketingAndSubscriptionMerchants => "direct_marketing_and_subscription_merchants"@,
        BusinessSubCategory::TypewriterStoresSalesServiceAndRentals => "typewriter_stores_sales_service_and_rentals"@,
        BusinessSubCategory::RecreationServices => "recreation_services"@,
        BusinessSubCategory::DirectMarketingInsuranceServices => "direct_marketing_insurance_services"@,
        BusinessSubCategory::BusinessServices => "business_services"@,
        BusinessSubCategory::InboundTelemarketingMerchants => "inbound_telemarketing_merchants"@,
        BusinessSubCategory::PublicWarehousing => "public_warehousing"@,
        BusinessSubCategory::OutboundTelemarketingMerchants => "outbound_telemarketing_merchants"@,
        BusinessSubCategory::ClothingRentalStores => "clothing_rental_stores"@,
        BusinessSubCategory::TransportationServices => "transportation_services"@,
        BusinessSubCategory::ElectricRazorStores => "electric_razor_stores"@,
        BusinessSubCategory::ServiceStations => "service_stations"@,
        BusinessSubCategory::PhotographicStudio => "photographic_studio"@,
        BusinessSubCategory::ProfessionalServices => "professional_services"@,
        BusinessSubCategory::Developer => "developer"@,
        BusinessSubCategory::FacilityManagement => "facility_management"@,
        BusinessSubCategory::RWA => "r_w_a"@,
        BusinessSubCategory::Cowoking => "cowoking"@,
        BusinessSubCategory::RealestateClassifieds => "realestate_classifieds"@,
        BusinessSubCategory::SpaceRental => "space_rental"@,
        BusinessSubCategory::Charity => "charity"@,
        BusinessSubCategory::Educational => "educational"@,
        BusinessSubCategory::Religious => "religious"@,
        BusinessSubCategory::Personal => "personal"@,
        BusinessSubCategory::MatchMaking => "match_making"@,
        BusinessSubCategory::SocialNetwork => "social_network"@,
        BusinessSubCategory::Messaging => "messaging"@,
        BusinessSubCategory::ProfessionalNetwork => "professional_network"@,
        BusinessSubCategory::NeighbourhoodNetwork => "neighbourhood_network"@,
        BusinessSubCategory::PoliticalOrganizations => "political_organizations"@,
        BusinessSubCategory::AutomobileAssociationsAndClubs => "automobile_associations_and_clubs"@,
        BusinessSubCategory::CountryAndAthleticClubs => "country_and_athletic_clubs"@,
        BusinessSubCategory::AssociationsAndMembership => "associations_and_membership"@,
        BusinessSubCategory::VideoOnDemand => "video_on_demand"@,
        BusinessSubCategory::MusicStreaming => "music_streaming"@,
        BusinessSubCategory::Multiplex => "multiplex"@,
        BusinessSubCategory::ContentAndPublishing => "content_and_publishing"@,
        BusinessSubCategory::Ticketing => "ticketing"@,
        BusinessSubCategory::News => "news"@,
        BusinessSubCategory::VideoGameArcades => "video_game_arcades"@,
        BusinessSubCategory::VideoTapeProductionAndDistribution => "video_tape_production_and_distribution"@,
        BusinessSubCategory::BowlingAlleys => "bowling_alleys"@,
        BusinessSubCategory::BilliardAndPoolEstablishments => "billiard_and_pool_establishments"@,
        BusinessSubCategory::AmusementParksAndCircuses => "amusement_parks_and_circuses"@,
        BusinessSubCategory::TicketAgencies => "ticket_agencies"@,
        BusinessSubCategory::GameDeveloper => "game_developer"@,
        BusinessSubCategory::Esports => "esports"@,
        BusinessSubCategory::OnlineCasino => "online_casino"@,
        BusinessSubCategory::FantasySports => "fantasy_sports"@,
        BusinessSubCategory::GamingMarketplace => "gaming_marketplace"@,
        BusinessSubCategory::Saas => "saas"@,
        BusinessSubCategory::Paas => "paas"@,
        BusinessSubCategory::Iaas => "iaas"@,
        BusinessSubCategory::ConsultingAndOutsourcing => "consulting_and_outsourcing"@,
        BusinessSubCategory::WebDevelopment => "web_development"@,
        BusinessSubCategory::TechnicalSupport => "technical_support"@,
        BusinessSubCategory::DataProcessing => "data_processing"@,
        BusinessSubCategory::OnlineFoodOrdering => "online_food_ordering"@,
        BusinessSubCategory::Restaurant => "restaurant"@,
        BusinessSubCategory::FoodCourt => "food_court"@,
        BusinessSubCategory::Catering => "catering"@,
        BusinessSubCategory::Alcohol => "alcohol"@,
        BusinessSubCategory::RestaurantSearchAndBooking => "restaurant_search_and_booking"@,
        BusinessSubCategory::DairyProducts => "dairy_products"@,
        BusinessSubCategory::Bakeries => "bakeries"@,
        BusinessSubCategory::Electricity => "electricity"@,
        BusinessSubCategory::Gas => "gas"@,
        BusinessSubCategory::Telecom => "telecom"@,
        BusinessSubCategory::Water => "water"@,
        BusinessSubCategory::Cable => "cable"@,
        BusinessSubCategory::Broadband => "broadband"@,
        BusinessSubCategory::DTH => "d_t_h"@,
        BusinessSubCategory::InternetProvider => "internet_provider"@,
        BusinessSubCategory::BillAndRechargeAggregators => "bill_and_recharge_aggregators"@,
        BusinessSubCategory::Central => "central"@,
        BusinessSubCategory::State => "state"@,
        BusinessSubCategory::IntraGovernmentPurchases => "intra_government_purchases"@,
        BusinessSubCategory::GovernmentPostalServices => "government_postal_services"@,
        BusinessSubCategory::Freight => "freight"@,
        BusinessSubCategory::Courier => "courier"@,
        BusinessSubCategory::Warehousing => "warehousing"@,
        BusinessSubCategory::Distribution => "distribution"@,
        BusinessSubCategory::EndToEndLogistics => "end_to_end_logistics"@,
        BusinessSubCategory::CourierServices => "courier_services"@,
        BusinessSubCategory::Aviation => "aviation"@,
        BusinessSubCategory::Accommodation => "accommodation"@,
        BusinessSubCategory::OTA => "o_t_a"@,
        BusinessSubCategory::TravelAgency => "travel_agency"@,
        BusinessSubCategory::TouristAttractionsAndExhibits => "tourist_attractions_and_exhibits"@,
        BusinessSubCategory::Timeshares => "timeshares"@,
        BusinessSubCategory::AquariumsDolphinariumsAndSeaquariums => "aquariums_dolphinariums_and_seaquariums"@,
        BusinessSubCategory::CabHailing => "cab_hailing"@,
        BusinessSubCategory::Bus => "bus"@,
        BusinessSubCategory::TrainAndMetro => "train_and_metro"@,
        BusinessSubCategory::AutomobileRentals => "automobile_rentals"@,
        BusinessSubCategory::CruiseLines => "cruise_lines"@,
        BusinessSubCategory::ParkingLotsAndGarages => "parking_lots_and_garages"@,
        BusinessSubCategory::Transportation => "transportation"@,
        BusinessSubCategory::BridgeAndRoadTolls => "bridge_and_road_tolls"@,
        BusinessSubCategory::FreightTransport => "freight_transport"@,
        BusinessSubCategory::TruckAndUtilityTrailerRentals => "truck_and_utility_trailer_rentals"@,
    }
}

impl BusinessSubCategory {
    /// The wire name of this value.
    pub fn as_str(&self) -> (r: &'static str)
        ensures
            r@ == business_sub_category_code(*self),
    {
        match self {
            BusinessSubCategory::MutualFund => "mutual_fund",
            BusinessSubCategory::Lending => "lending",
            BusinessSubCategory::Cryptocurrency => "cryptocurrency",
            BusinessSubCategory::Insurance => "insurance",
            BusinessSubCategory::NBFC => "n_b_f_c",
            BusinessSubCategory::Cooperatives => "cooperatives",
            BusinessSubCategory::PensionFund => "pension_fund",
            BusinessSubCategory::Forex => "forex",
            BusinessSubCategory::Securities => "securities",
            BusinessSubCategory::Commodities => "commodities",
            BusinessSubCategory::Accounting => "accounting",
            BusinessSubCategory::FinancialAdvisor => "financial_advisor",
            BusinessSubCategory::Crowdfunding => "crowdfunding",
            BusinessSubCategory::Trading => "trading",
            BusinessSubCategory::Betting => "betting",
            BusinessSubCategory::GetRichSchemes => "get_rich_schemes",
            BusinessSubCategory::MoneysendFunding => "moneysend_funding",
            BusinessSubCategory::WireTransferAndMoneyOrders => "wire_transfer_and_money_orders",
            BusinessSubCategory::TaxPreparationServices => "tax_preparation_services",
            BusinessSubCategory::TaxPayments => "tax_payments",
            BusinessSubCategory::DigitalGoods => "digital_goods",
            BusinessSubCategory::ATMs => "a_t_ms",
            BusinessSubCategory::College => "college",
            BusinessSubCategory::School => "school",
            BusinessSubCategory::University => "university",
            BusinessSubCategory::ProfessionalCourses => "professional_courses",
            BusinessSubCategory::DistanceLearning => "distance_learning",
            BusinessSubCategory::DayCare => "day_care",
            BusinessSubCategory::Coaching => "coaching",
            BusinessSubCategory::Elearning => "elearning",
            BusinessSubCategory::VocationalAndTradeSchools => "vocational_and_trade_schools",
            BusinessSubCategory::SportingClubs => "sporting_clubs",
            BusinessSubCategory::DanceHallsStudiosAndSchools => "dance_halls_studios_and_schools",
            BusinessSubCategory::CorrespondenceSchools => "correspondence_schools",
            BusinessSubCategory::Pharmacy => "pharmacy",
            BusinessSubCategory::Clinic => "clinic",
            BusinessSubCategory::Hospital => "hospital",
            BusinessSubCategory::Lab => "lab",
            BusinessSubCategory::Dietician => "dietician",
            BusinessSubCategory::Fitness => "fitness",
            BusinessSubCategory::HealthCoaching => "health_coaching",
            BusinessSubCategory::HealthProducts => "health_products",
            BusinessSubCategory::DrugStores => "drug_stores",
            BusinessSubCategory::HealthcareMarketplace => "healthcare_marketplace",
            BusinessSubCategory::Osteopaths => "osteopaths",
            BusinessSubCategory::MedicalEquipmentAndSupplyStores => "medical_equipment_and_supply_stores",
            BusinessSubCategory::PodiatristsAndChiropodists => "podiatrists_and_chiropodists",
            BusinessSubCategory::DentistsAndOrthodontists => "dentists_and_orthodontists",
            BusinessSubCategory::HardwareStores => "hardware_stores",
            BusinessSubCategory::Ophthalmologists => "ophthalmologists",
            BusinessSubCategory::OrthopedicGoodsStores => "orthopedic_goods_stores",
            BusinessSubCategory::TestingLaboratories => "testing_laboratories",
            BusinessSubCategory::Doctors => "doctors",
            BusinessSubCategory::HealthPractitionersMedicalServices => "health_practitioners_medical_services",
            BusinessSubCategory::EcommerceMarketplace => "ecommerce_marketplace",
            BusinessSubCategory::Agriculture => "agriculture",
            BusinessSubCategory::Books => "books",
            BusinessSubCategory::ElectronicsAndFurniture => "electronics_and_furniture",
            BusinessSubCategory::Coupons => "coupons",
            BusinessSubCategory::Rental => "rental",
            BusinessSubCategory::FashionAndLifestyle => "fashion_and_lifestyle",
            BusinessSubCategory::Gifting => "gifting",
            BusinessSubCategory::Grocery => "grocery",
            BusinessSubCategory::BabyProducts => "baby_products",
            BusinessSubCategory::OfficeSupplies => "office_supplies",
            BusinessSubCategory::Wholesale => "wholesale",
            BusinessSubCategory::ReligiousProducts => "religious_products",
            BusinessSubCategory::PetProducts => "pet_products",
            BusinessSubCategory::SportsProducts => "sports_products",
            BusinessSubCategory::ArtsAndCollectibles => "arts_and_collectibles",
            BusinessSubCategory::SexualWellnessProducts => "sexual_wellness_products",
            BusinessSubCategory::DropShipping => "drop_shipping",
            BusinessSubCategory::CryptoMachinery => "crypto_machinery",
            BusinessSubCategory::Tobacco => "tobacco",
            BusinessSubCategory::WeaponsAndAmmunitions => "weapons_and_ammunitions",
            BusinessSubCategory::StampsAndCoinsStores => "stamps_and_coins_stores",
            BusinessSubCategory::OfficeEquipment => "office_equipment",
            BusinessSubCategory::AutomobilePartsAndEquipements => "automobile_parts_and_equipements",
            BusinessSubCategory::GardenSupplyStores => "garden_supply_stores",
            BusinessSubCategory::HouseholdApplianceStores => "household_appliance_stores",
            BusinessSubCategory::NonDurableGoods => "non_durable_goods",
            BusinessSubCategory::PawnShops => "pawn_shops",
            BusinessSubCategory::ElectricalPartsAndEquipment => "electrical_parts_and_equipment",
            BusinessSubCategory::WigAndToupeeShops => "wig_and_toupee_shops",
            BusinessSubCategory::GiftNoveltyAndSouvenirShops => "gift_novelty_and_souvenir_shops",
            BusinessSubCategory::DutyFreeStores => "duty_free_stores",
            BusinessSubCategory::OfficeAndCommercialFurniture => "office_and_commercial_furniture",
            BusinessSubCategory::DryGoods => "dry_goods",
            BusinessSubCategory::BooksAndPublications => "books_and_publications",
            BusinessSubCategory::CameraAndPhotographicStores => "camera_and_photographic_stores",
            BusinessSubCategory::RecordShops => "record_shops",
            BusinessSubCategory::MeatSupplyStores => "meat_supply_stores",
            BusinessSubCategory::LeatherGoodsAndLuggage => "leather_goods_and_luggage",
            BusinessSubCategory::SnowmobileDealers => "snowmobile_dealers",
            BusinessSubCategory::MenAndBoysClothingStores => "men_and_boys_clothing_stores",
            BusinessSubCategory::PaintSupplyStores => "paint_supply_stores",
            BusinessSubCategory::AutomotiveParts => "automotive_parts",
            BusinessSubCategory::JewelleryAndWatchStores => "jewellery_and_watch_stores",
            BusinessSubCategory::AutoStoreHomeSupplyStores => "auto_store_home_supply_stores",
            BusinessSubCategory::TentStores => "tent_stores",
            BusinessSubCategory::ShoeStoresRetail => "shoe_stores_retail",
            BusinessSubCategory::PetroleumAndPetroleumProducts => "petroleum_and_petroleum_products",
            BusinessSubCategory::DepartmentStores => "department_stores",
            BusinessSubCategory::AutomotiveTireStores => "automotive_tire_stores",
            BusinessSubCategory::SportApparelStores => "sport_apparel_stores",
            BusinessSubCategory::VarietyStores => "variety_stores",
            BusinessSubCategory::ChemicalsAndAlliedProducts => "chemicals_and_allied_products",
            BusinessSubCategory::CommercialEquipments => "commercial_equipments",
            BusinessSubCategory::FireplacePartsAndAccessories => "fireplace_parts_and_accessories",
            BusinessSubCategory::FamilyClothingStores => "family_clothing_stores",
            BusinessSubCategory::FabricAndSewingStores => "fabric_and_sewing_stores",
            BusinessSubCategory::HomeSupplyWarehouse => "home_supply_warehouse",
            BusinessSubCategory::ArtSupplyStores => "art_supply_stores",
            BusinessSubCategory::CamperRecreationalAndUtilityTrailerDealers => "camper_recreational_and_utility_trailer_dealers",
            BusinessSubCategory::ClocksAndSilverwareStores => "clocks_and_silverware_stores",
            BusinessSubCategory::DiscountStores => "discount_stores",
            BusinessSubCategory::SchoolSuppliesAndStationery => "school_supplies_and_stationery",
            BusinessSubCategory::SecondHandStores => "second_hand_stores",
            BusinessSubCategory::WatchAndJewelleryRepairStores => "watch_and_jewellery_repair_stores",
            BusinessSubCategory::LiquorStores => "liquor_stores",
            BusinessSubCategory::BoatDealers => "boat_dealers",
            BusinessSubCategory::OpticiansOpticalGoodsAndEyeglasseStores => "opticians_optical_goods_and_eyeglasse_stores",
            BusinessSubCategory::WholesaleFootwearStores => "wholesale_footwear_stores",
            BusinessSubCategory::CosmeticStores => "cosmetic_stores",
            BusinessSubCategory::HomeFurnishingStores => "home_furnishing_stores",
            BusinessSubCategory::AntiqueStores => "antique_stores",
            BusinessSubCategory::PlumbingAndHeatingEquipment => "plumbing_and_heating_equipment",
            BusinessSubCategory::TelecommunicationEquipmentStores => "telecommunication_equipment_stores",
            BusinessSubCategory::WomenClothing => "women_clothing",
            BusinessSubCategory::Florists => "florists",
            BusinessSubCategory::ComputerSoftwareStores => "computer_software_stores",
            BusinessSubCategory::BuildingMaterialStores => "building_material_stores",
            BusinessSubCategory::CandyNutConfectioneryStores => "candy_nut_confectionery_stores",
            BusinessSubCategory::GlassAndWallpaperStores => "glass_and_wallpaper_stores",
            BusinessSubCategory::CommercialPhotographyAndGraphicDesignServices => "commercial_photography_and_graphic_design_services",
            BusinessSubCategory::VideoGameSupplyStores => "video_game_supply_stores",
            BusinessSubCategory::FuelDealers => "fuel_dealers",
            BusinessSubCategory::DraperyAndWindowCoveringsStores => "drapery_and_window_coverings_stores",
            BusinessSubCategory::HearingAidsStores => "hearing_aids_stores",
            BusinessSubCategory::AutomotivePaintShops => "automotive_paint_shops",
            BusinessSubCategory::DurableGoodsStores => "durable_goods_stores",
            BusinessSubCategory::UniformsAndCommercialClothingStores => "uniforms_and_commercial_clothing_stores",
            BusinessSubCategory::FurShops => "fur_shops",
            BusinessSubCategory::IndustrialSupplies => "industrial_supplies",
            BusinessSubCategory::BicycleStores => "bicycle_stores",
            BusinessSubCategory::MotorcycleShopsAndDealers => "motorcycle_shops_and_dealers",
            BusinessSubCategory::ChildrenAndInfantsWearStores => "children_and_infants_wear_stores",
            BusinessSubCategory::WomenAccessoryStores => "women_accessory_stores",
            BusinessSubCategory::ConstructionMaterials => "construction_materials",
            BusinessSubCategory::BooksPeriodicalsAndNewspaper => "books_periodicals_and_newspaper",
            BusinessSubCategory::FloorCoveringStores => "floor_covering_stores",
            BusinessSubCategory::CrystalAndGlasswareStores => "crystal_and_glassware_stores",
            BusinessSubCategory::AccessoryAndApparelStores => "accessory_and_apparel_stores",
            BusinessSubCategory::HardwareEquipmentAndSupplyStores => "hardware_equipment_and_supply_stores",
            BusinessSubCategory::ComputerPeripheralEquipmentSoftware => "computer_peripheral_equipment_software",
            BusinessSubCategory::AutomobileAndTruckDealers => "automobile_and_truck_dealers",
            BusinessSubCategory::AircraftAndFarmEquipmentDealers => "aircraft_and_farm_equipment_dealers",
            BusinessSubCategory::AntiqueShopsSalesAndRepairs => "antique_shops_sales_and_repairs",
            BusinessSubCategory::MusicStores => "music_stores",
            BusinessSubCategory::FurnitureAndHomeFurnishingStore => "furniture_and_home_furnishing_store",
            BusinessSubCategory::RepairAndCleaning => "repair_and_cleaning",
            BusinessSubCategory::InteriorDesignAndArchitect => "interior_design_and_architect",
            BusinessSubCategory::MoversAndPackers => "movers_and_packers",
            BusinessSubCategory::Legal => "legal",
            BusinessSubCategory::EventPlanning => "event_planning",
            BusinessSubCategory::ServiceCentre => "service_centre",
            BusinessSubCategory::Consulting => "consulting",
            BusinessSubCategory::AdAndMarketing => "ad_and_marketing",
            BusinessSubCategory::ServicesClassifieds => "services_classifieds",
            BusinessSubCategory::MultiLevelMarketing => "multi_level_marketing",
            BusinessSubCategory::ConstructionServices => "construction_services",
            BusinessSubCategory::ArchitecturalServices => "architectural_services",
            BusinessSubCategory::CarWashes => "car_washes",
            BusinessSubCategory::MotorHomeRentals => "motor_home_rentals",
            BusinessSubCategory::StenographicAndSecretarialSupportServices => "stenographic_and_secretarial_support_services",
            BusinessSubCategory::Chiropractors => "chiropractors",
            BusinessSubCategory::AutomotiveServiceShops => "automotive_service_shops",
            BusinessSubCategory::ShoeRepairShops => "shoe_repair_shops",
            BusinessSubCategory::TelecommunicationService => "telecommunication_service",
            BusinessSubCategory::Fines => "fines",
            BusinessSubCategory::SecurityAgencies => "security_agencies",
            BusinessSubCategory::Tailors => "tailors",
            BusinessSubCategory::TypeSettingAndEngravingServices => "type_setting_and_engraving_services",
            BusinessSubCategory::SmallApplianceRepairShops => "small_appliance_repair_shops",
            BusinessSubCategory::PhotographyLabs => "photography_labs",
            BusinessSubCategory::DryCleaners => "dry_cleaners",
            BusinessSubCategory::MassageParlors => "massage_parlors",
            BusinessSubCategory::ElectronicRepairShops => "electronic_repair_shops",
            BusinessSubCategory::CleaningAndSanitationServices => "cleaning_and_sanitation_services",
            BusinessSubCategory::NursingCareFacilities => "nursing_care_facilities",
            BusinessSubCategory::DirectMarketing => "direct_marketing",
            BusinessSubCategory::Lottery => "lottery",
            BusinessSubCategory::VeterinaryServices => "veterinary_services",
            BusinessSubCategory::AffliatedAutoRental => "affliated_auto_rental",
            BusinessSubCategory::AlimonyAndChildSupport => "alimony_and_child_support",
            BusinessSubCategory::AirportFlyingFields => "airport_flying_fields",
            BusinessSubCategory::GolfCourses => "golf_courses",
            BusinessSubCategory::TireRetreadingAndRepairShops => "tire_retreading_and_repair_shops",
            BusinessSubCategory::TelevisionCableServices => "television_cable_services",
            BusinessSubCategory::RecreationAndSportingCamps => "recreation_and_sporting_camps",
            BusinessSubCategory::BarberAndBeautyShops => "barber_and_beauty_shops",
            BusinessSubCategory::AgriculturalCooperatives => "agricultural_cooperatives",
            BusinessSubCategory::CarpentryContractors => "carpentry_contractors",
            BusinessSubCategory::WreckingAndSalvagingServices => "wrecking_and_salvaging_services",
            BusinessSubCategory::AutomobileTowingservices => "automobile_towingservices",
            BusinessSubCategory::VideoTapeRentalStores => "video_tape_rental_stores",
            BusinessSubCategory::MiscellaneousRepairShops => "miscellaneous_repair_shops",
            BusinessSubCategory::MotorHomesAndParts => "motor_homes_and_parts",
            BusinessSubCategory::HorseOrDogRacing => "horse_or_dog_racing",
            BusinessSubCategory::LaundryServices => "laundry_services",
            BusinessSubCategory::ElectricalContractors => "electrical_contractors",
            BusinessSubCategory::DebtMarriagePersonalCounselingService => "debt_marriage_personal_counseling_service",
            BusinessSubCategory::AirConditioningAndRefigerationRepairShops => "air_conditioning_and_refigeration_repair_shops",
            BusinessSubCategory::CreditReportingAgencies => "credit_reporting_agencies",
            BusinessSubCategory::HeatingAndPlumbingContractors => "heating_and_plumbing_contractors",
            BusinessSubCategory::CarpetAndUpholsteryCleaningServices => "carpet_and_upholstery_cleaning_services",
            BusinessSubCategory::SwimmingPools => "swimming_pools",
            BusinessSubCategory::RoofingAndMetalWorkContractors => "roofing_and_metal_work_contractors",
            BusinessSubCategory::InternetServiceProviders => "internet_service_providers",
            BusinessSubCategory::RecreationalCamps => "recreational_camps",
            BusinessSubCategory::MasonryContractors => "masonry_contractors",
            BusinessSubCategory::ExterminatingAndDisinfectingServices => "exterminating_and_disinfecting_services",
            BusinessSubCategory::AmbulanceServices => "ambulance_services",
            BusinessSubCategory::FuneralServicesAndCrematories => "funeral_services_and_crematories",
            BusinessSubCategory::MetalServiceCentres => "metal_service_centres",
            BusinessSubCategory::CopyingAndBlueprintingServices => "copying_and_blueprinting_services",
            BusinessSubCategory::FuelDispensers => "fuel_dispensers",
            BusinessSubCategory::WeldingRepair => "welding_repair",
            BusinessSubCategory::MobileHomeDealers => "mobile_home_dealers",
            BusinessSubCategory::ConcreteWorkContractors => "concrete_work_contractors",
            BusinessSubCategory::BoatRentals => "boat_rentals",
            BusinessSubCategory::PersonalShoppersAndShoppingClubs => "personal_shoppers_and_shopping_clubs",
            BusinessSubCategory::DoorToDoorSales => "door_to_door_sales",
            BusinessSubCategory::TravelRelatedDirectMarketing => "travel_related_direct_marketing",
            BusinessSubCategory::LotteryAndBetting => "lottery_and_betting",
            BusinessSubCategory::BandsOrchestrasAndMiscellaneousEntertainers => "bands_orchestras_and_miscellaneous_entertainers",
            BusinessSubCategory::FurnitureRepairAndRefinishing => "furniture_repair_and_refinishing",
            BusinessSubCategory::Contractors => "contractors",
            BusinessSubCategory::DirectMarketingAndSubscriptionMerchants => "direct_marketing_and_subscription_merchants",
            BusinessSubCategory::TypewriterStoresSalesServiceAndRentals => "typewriter_stores_sales_service_and_rentals",
            BusinessSubCategory::RecreationServices => "recreation_services",
            BusinessSubCategory::DirectMarketingInsuranceServices => "direct_marketing_insurance_services",
            BusinessSubCategory::BusinessServices => "business_services",
            BusinessSubCategory::InboundTelemarketingMerchants => "inbound_telemarketing_merchants",
            BusinessSubCategory::PublicWarehousing => "public_warehousing",
            BusinessSubCategory::OutboundTelemarketingMerchants => "outbound_telemarketing_merchants",
            BusinessSubCategory::ClothingRentalStores => "clothing_rental_stores",
            BusinessSubCategory::TransportationServices => "transportation_services",
            BusinessSubCategory::ElectricRazorStores => "electric_razor_stores",
            BusinessSubCategory::ServiceStations => "service_stations",
            BusinessSubCategory::PhotographicStudio => "photographic_studio",
            BusinessSubCategory::ProfessionalServices => "professional_services",
            BusinessSubCategory::Developer => "developer",
            BusinessSubCategory::FacilityManagement => "facility_management",
            BusinessSubCategory::RWA => "r_w_a",
            BusinessSubCategory::Cowoking => "cowoking",
            BusinessSubCategory::RealestateClassifieds => "realestate_classifieds",
            BusinessSubCategory::SpaceRental => "space_rental",
            BusinessSubCategory::Charity => "charity",
            BusinessSubCategory::Educational => "educational",
            BusinessSubCategory::Religious => "religious",
            BusinessSubCategory::Personal => "personal",
            BusinessSubCategory::MatchMaking => "match_making",
            BusinessSubCategory::SocialNetwork => "social_network",
            BusinessSubCategory::Messaging => "messaging",
            BusinessSubCategory::ProfessionalNetwork => "professional_network",
            BusinessSubCategory::NeighbourhoodNetwork => "neighbourhood_network",
            BusinessSubCategory::PoliticalOrganizations => "political_organizations",
            BusinessSubCategory::AutomobileAssociationsAndClubs => "automobile_associations_and_clubs",
            BusinessSubCategory::CountryAndAthleticClubs => "country_and_athletic_clubs",
            BusinessSubCategory::AssociationsAndMembership => "associations_and_membership",
            BusinessSubCategory::VideoOnDemand => "video_on_demand",
            BusinessSubCategory::MusicStreaming => "music_streaming",
            BusinessSubCategory::Multiplex => "multiplex",
            BusinessSubCategory::ContentAndPublishing => "content_and_publishing",
            BusinessSubCategory::Ticketing => "ticketing",
            BusinessSubCategory::News => "news",
            BusinessSubCategory::VideoGameArcades => "video_game_arcades",
            BusinessSubCategory::VideoTapeProductionAndDistribution => "video_tape_production_and_distribution",
            BusinessSubCategory::BowlingAlleys => "bowling_alleys",
            BusinessSubCategory::BilliardAndPoolEstablishments => "billiard_and_pool_establishments",
            BusinessSubCategory::AmusementParksAndCircuses => "amusement_parks_and_circuses",
            BusinessSubCategory::TicketAgencies => "ticket_agencies",
            BusinessSubCategory::GameDeveloper => "game_developer",
            BusinessSubCategory::Esports => "esports",
            BusinessSubCategory::OnlineCasino => "online_casino",
            BusinessSubCategory::FantasySports => "fantasy_sports",
            BusinessSubCategory::GamingMarketplace => "gaming_marketplace",
            BusinessSubCategory::Saas => "saas",
            BusinessSubCategory::Paas => "paas",
            BusinessSubCategory::Iaas => "iaas",
            BusinessSubCategory::ConsultingAndOutsourcing => "consulting_and_outsourcing",
            BusinessSubCategory::WebDevelopment => "web_development",
            BusinessSubCategory::TechnicalSupport => "technical_support",
            BusinessSubCategory::DataProcessing => "data_processing",
            BusinessSubCategory::OnlineFoodOrdering => "online_food_ordering",
            BusinessSubCategory::Restaurant => "restaurant",
            BusinessSubCategory::FoodCourt => "food_court",
            BusinessSubCategory::Catering => "catering",
            BusinessSubCategory::Alcohol => "alcohol",
            BusinessSubCategory::RestaurantSearchAndBooking => "restaurant_search_and_booking",
            BusinessSubCategory::DairyProducts => "dairy_products",
            BusinessSubCategory::Bakeries => "bakeries",
            BusinessSubCategory::Electricity => "electricity",
            BusinessSubCategory::Gas => "gas",
            BusinessSubCategory::Telecom => "telecom",
            BusinessSubCategory::Water => "water",
            BusinessSubCategory::Cable => "cable",
            BusinessSubCategory::Broadband => "broadband",
            BusinessSubCategory::DTH => "d_t_h",
            BusinessSubCategory::InternetProvider => "internet_provider",
            BusinessSubCategory::BillAndRechargeAggregators => "bill_and_recharge_aggregators",
            BusinessSubCategory::Central => "central",
            BusinessSubCategory::State => "state",
            BusinessSubCategory::IntraGovernmentPurchases => "intra_government_purchases",
            BusinessSubCategory::GovernmentPostalServices => "government_postal_services",
            BusinessSubCategory::Freight => "freight",
            BusinessSubCategory::Courier => "courier",
            BusinessSubCategory::Warehousing => "warehousing",
            BusinessSubCategory::Distribution => "distribution",
            BusinessSubCategory::EndToEndLogistics => "end_to_end_logistics",
            BusinessSubCategory::CourierServices => "courier_services",
            BusinessSubCategory::Aviation => "aviation",
            BusinessSubCategory::Accommodation => "accommodation",
            BusinessSubCategory::OTA => "o_t_a",
            BusinessSubCategory::TravelAgency => "travel_agency",
            BusinessSubCategory::TouristAttractionsAndExhibits => "tourist_attractions_and_exhibits",
            BusinessSubCategory::Timeshares => "timeshares",
            BusinessSubCategory::AquariumsDolphinariumsAndSeaquariums => "aquariums_dolphinariums_and_seaquariums",
            BusinessSubCategory::CabHailing => "cab_hailing",
            BusinessSubCategory::Bus => "bus",
            BusinessSubCategory::TrainAndMetro => "train_and_metro",
            BusinessSubCategory::AutomobileRentals => "automobile_rentals",
            BusinessSubCategory::CruiseLines => "cruise_lines",
            BusinessSubCategory::ParkingLotsAndGarages => "parking_lots_and_garages",
            BusinessSubCategory::Transportation => "transportation",
            BusinessSubCategory::BridgeAndRoadTolls => "bridge_and_road_tolls",
            BusinessSubCategory::FreightTransport => "freight_transport",
            BusinessSubCategory::TruckAndUtilityTrailerRentals => "truck_and_utility_trailer_rentals",
        }
    }
}


/// The members one app reference serializes to.
pub open spec fn account_app_members(c: CreateAccountApp) -> Seq<(Seq<char>, JVal)> {
    seq![("name"@, JVal::Str(c.name@)), ("url"@, JVal::Str(c.url@))]
}

impl<'a> CreateAccountApp<'a> {
    /// Serializes these parameters as their JSON body.
    pub fn to_json(&self) -> (r: JsonValue)
        ensures
            r@ == JVal::Obj(account_app_members(*self)),
    {
        let mut members: Vec<(String, JsonValue)> = Vec::new();
        members.push((String::from_str("name"), JsonValue::Str(self.name.to_owned())));
        members.push((String::from_str("url"), JsonValue::Str(self.url.to_owned())));
        let ghost cm = account_app_members(*self);
        proof {
            let mv = crate::json::member_views_of(members@);
            assert(mv.len() == cm.len());
            assert forall|k: int| 0 <= k < mv.len() implies mv[k] == cm[k] by {
                assert(mv[k] == (members@[k].0@, members@[k].1.jval()));
            }
            assert(mv =~= cm);
        }
        JsonValue::Obj(members)
    }
}
/// The wire form of a list of app references.
pub open spec fn account_apps_jarr(apps: Seq<CreateAccountApp>) -> Seq<JVal> {
    Seq::new(
        apps.len(),
        |i: int|
            if 0 <= i < apps.len() {
                JVal::Obj(account_app_members(apps[i]))
            } else {
                JVal::Null
            },
    )
}

fn account_apps_to_json(apps: &[CreateAccountApp<'_>]) -> (r: JsonValue)
    ensures
        r@ == JVal::Arr(account_apps_jarr(apps@)),
{
    let mut items: Vec<JsonValue> = Vec::new();
    let n = apps.len();
    let mut i: usize = 0;
    while i < n
        invariant
            n == apps@.len(),
            i <= n,
            items@.len() == i,
            forall|k: int| 0 <= k < i ==> #[trigger] items@[k]@ == JVal::Obj(
                account_app_members(apps@[k]),
            ),
        decreases n - i,
    {
        let a = vstd::slice::slice_index_get(apps, i);
        items.push(a.to_json());
        i = i + 1;
        assert(items@[i - 1]@ == JVal::Obj(account_app_members(apps@[i - 1])));
    }
    proof {
        assert forall|k: int| 0 <= k < n implies crate::json::views_of(items@)[k]
            == account_apps_jarr(apps@)[k] by {
            assert(items@[k]@ == JVal::Obj(account_app_members(apps@[k])));
        }
        assert(crate::json::views_of(items@) =~= account_apps_jarr(apps@));
    }
    JsonValue::Arr(items)
}

/// The members the app catalogue serializes to.
pub open spec fn account_apps_members(c: CreateAccountApps) -> Seq<(Seq<char>, JVal)> {
    seq![
        ("websites"@, JVal::Arr(crate::common::str_list_jarr(c.websites@))),
        ("android"@, JVal::Arr(account_apps_jarr(c.android@))),
        ("ios"@, JVal::Arr(account_apps_jarr(c.ios@))),
    ]
}

impl<'a> CreateAccountApps<'a> {
    /// Serializes these parameters as their JSON body.
    pub fn to_json(&self) -> (r: JsonValue)
        ensures
            r@ == JVal::Obj(account_apps_members(*self)),
    {
        let mut members: Vec<(String, JsonValue)> = Vec::new();
        members.push((String::from_str("websites"), crate::common::str_list_to_json(self.websites)));
        members.push((String::from_str("android"), account_apps_to_json(self.android)));
        members.push((String::from_str("ios"), account_apps_to_json(self.ios)));
        let ghost cm = account_apps_members(*self);
        proof {
            let mv = crate::json::member_views_of(members@);
            assert(mv.len() == cm.len());
            assert forall|k: int| 0 <= k < mv.len() implies mv[k] == cm[k] by {
                assert(mv[k] == (members@[k].0@, members@[k].1.jval()));
            }
            assert(mv =~= cm);
        }
        JsonValue::Obj(members)
    }
}
/// The members one contact channel serializes to.
pub open spec fn contact_details_members(c: CreateAccountContactDetails) -> Seq<(Seq<char>, JVal)> {
    seq![
        ("email"@, JVal::Str(c.email@)),
        ("phone"@, JVal::Num(crate::num::dec_str(c.phone as int))),
        ("policy_url"@, JVal::Str(c.policy_url@)),
    ]
}

impl<'a> CreateAccountContactDetails<'a> {
    /// Serializes these parameters as their JSON body.
    pub fn to_json(&self) -> (r: JsonValue)
        ensures
            r@ == JVal::Obj(contact_details_members(*self)),
    {
        let mut members: Vec<(String, JsonValue)> = Vec::new();
        members.push((String::from_str("email"), JsonValue::Str(self.email.to_owned())));
        members.push(
            (String::from_str("phone"), JsonValue::Num(crate::num::u64_to_string(self.phone))),
        );
        members.push((String::from_str("policy_url"), JsonValue::Str(self.policy_url.to_owned())));
        let ghost cm = contact_details_members(*self);
        proof {
            let mv = crate::json::member_views_of(members@);
            assert(mv.len() == cm.len());
            assert forall|k: int| 0 <= k < mv.len() implies mv[k] == cm[k] by {
                assert(mv[k] == (members@[k].0@, members@[k].1.jval()));
            }
            assert(mv =~= cm);
        }
        JsonValue::Obj(members)
    }
}
/// The members the contact channels serialize to.
pub open spec fn contact_info_members(c: CreateAccountContactInfo) -> Seq<(Seq<char>, JVal)> {
    seq![
        ("chargeback"@, JVal::Obj(contact_details_members(c.chargeback))),
        ("refund"@, JVal::Obj(contact_details_members(c.refund))),
        ("support"@, JVal::Obj(contact_details_members(c.support))),
    ]
}

impl<'a> CreateAccountContactInfo<'a> {
    /// Serializes these parameters as their JSON body.
    pub fn to_json(&self) -> (r: JsonValue)
        ensures
            r@ == JVal::Obj(contact_info_members(*self)),
    {
        let mut members: Vec<(String, JsonValue)> = Vec::new();
        members.push((String::from_str("chargeback"), self.chargeback.to_json()));
        members.push((String::from_str("refund"), self.refund.to_json()));
        members.push((String::from_str("support"), self.support.to_json()));
        let ghost cm = contact_info_members(*self);
        proof {
            let mv = crate::json::member_views_of(members@);
            assert(mv.len() == cm.len());
            assert forall|k: int| 0 <= k < mv.len() implies mv[k] == cm[k] by {
                assert(mv[k] == (members@[k].0@, members@[k].1.jval()));
            }
            assert(mv =~= cm);
        }
        JsonValue::Obj(members)
    }
}
/// The member the brand serializes to.
pub open spec fn brand_info_members(c: CreateAccountBrandInfo) -> Seq<(Seq<char>, JVal)> {
    seq![("color"@, JVal::Str(c.color@))]
}

impl<'a> CreateAccountBrandInfo<'a> {
    /// Serializes these parameters as their JSON body.
    pub fn to_json(&self) -> (r: JsonValue)
        ensures
            r@ == JVal::Obj(brand_info_members(*self)),
    {
        let mut members: Vec<(String, JsonValue)> = Vec::new();
        members.push((String::from_str("color"), JsonValue::Str(self.color.to_owned())));
        let ghost cm = brand_info_members(*self);
        proof {
            let mv = crate::json::member_views_of(members@);
            assert(mv.len() == cm.len());
            assert forall|k: int| 0 <= k < mv.len() implies mv[k] == cm[k] by {
                assert(mv[k] == (members@[k].0@, members@[k].1.jval()));
            }
            assert(mv =~= cm);
        }
        JsonValue::Obj(members)
    }
}
/// The members the legal identifiers serialize to; absent ones are left out.
pub open spec fn legal_info_members(c: CreateAccountLegalInfo) -> Seq<(Seq<char>, JVal)> {
    crate::common::seg_str("pan"@, c.pan) + crate::common::seg_str("gst"@, c.gst)
        + crate::common::seg_str("cin"@, c.cin)
}

impl<'a> CreateAccountLegalInfo<'a> {
    /// Serializes these parameters as their JSON body.
    pub fn to_json(&self) -> (r: JsonValue)
        ensures
            r@ == JVal::Obj(legal_info_members(*self)),
    {
        let mut members: Vec<(String, JsonValue)> = Vec::new();
        crate::common::push_seg_str(&mut members, "pan", self.pan);
        crate::common::push_seg_str(&mut members, "gst", self.gst);
        crate::common::push_seg_str(&mut members, "cin", self.cin);
        let ghost cm = legal_info_members(*self);
        proof {
            let mv = crate::json::member_views_of(members@);
            assert(mv.len() == cm.len());
            assert forall|k: int| 0 <= k < mv.len() implies mv[k] == cm[k] by {
                assert(mv[k] == (members@[k].0@, members@[k].1.jval()));
            }
            assert(mv =~= cm);
        }
        JsonValue::Obj(members)
    }
}
/// The members one postal address serializes to.
pub open spec fn account_address_members(c: CreateAccountAddress) -> Seq<(Seq<char>, JVal)> {
    seq![
        ("street1"@, JVal::Str(c.street1@)),
        ("street2"@, JVal::Str(c.street2@)),
        ("city"@, JVal::Str(c.city@)),
        ("state"@, JVal::Str(c.state@)),
        ("postal_code"@, JVal::Num(crate::num::dec_str(c.postal_code as int))),
        ("country"@, JVal::Str(crate::common::country_code(c.country))),
    ]
}

impl<'a> CreateAccountAddress<'a> {
    /// Serializes these parameters as their JSON body.
    pub fn to_json(&self) -> (r: JsonValue)
        ensures
            r@ == JVal::Obj(account_address_members(*self)),
    {
        let mut members: Vec<(String, JsonValue)> = Vec::new();
        members.push((String::from_str("street1"), JsonValue::Str(self.street1.to_owned())));
        members.push((String::from_str("street2"), JsonValue::Str(self.street2.to_owned())));
        members.push((String::from_str("city"), JsonValue::Str(self.city.to_owned())));
        members.push((String::from_str("state"), JsonValue::Str(self.state.to_owned())));
        members.push(
            (
                String::from_str("postal_code"),
                JsonValue::Num(crate::num::u64_to_string(self.postal_code as u64)),
            ),
        );
        members.push(
            (
                String::from_str("country"),
                JsonValue::Str(String::from_str(self.country.as_str())),
            ),
        );
        let ghost cm = account_address_members(*self);
        proof {
            let mv = crate::json::member_views_of(members@);
            assert(mv.len() == cm.len());
            assert forall|k: int| 0 <= k < mv.len() implies mv[k] == cm[k] by {
                assert(mv[k] == (members@[k].0@, members@[k].1.jval()));
            }
            assert(mv =~= cm);
        }
        JsonValue::Obj(members)
    }
}
/// The members the address set serializes to; the registered address always travels.
pub open spec fn account_addresses_members(c: CreateAccountAddresses) -> Seq<(Seq<char>, JVal)> {
    (match c.operation {
        Some(a) => seq![("operation"@, JVal::Obj(account_address_members(a)))],
        None => Seq::empty(),
    }) + seq![("registered"@, JVal::Obj(account_address_members(c.registered)))]
}

impl<'a> CreateAccountAddresses<'a> {
    /// Serializes these parameters as their JSON body.
    pub fn to_json(&self) -> (r: JsonValue)
        ensures
            r@ == JVal::Obj(account_addresses_members(*self)),
    {
        let mut members: Vec<(String, JsonValue)> = Vec::new();
        if let Some(a) = &self.operation {
            members.push((String::from_str("operation"), a.to_json()));
        }
        members.push((String::from_str("registered"), self.registered.to_json()));
        let ghost cm = account_addresses_members(*self);
        proof {
            let mv = crate::json::member_views_of(members@);
            assert(mv.len() == cm.len());
            assert forall|k: int| 0 <= k < mv.len() implies mv[k] == cm[k] by {
                assert(mv[k] == (members@[k].0@, members@[k].1.jval()));
            }
            assert(mv =~= cm);
        }
        JsonValue::Obj(members)
    }
}
/// The members the business profile serializes to.
pub open spec fn account_profile_members(c: CreateAccountProfile) -> Seq<(Seq<char>, JVal)> {
    seq![
        ("category"@, JVal::Str(business_category_code(c.category))),
        ("subcategory"@, JVal::Str(business_sub_category_code(c.subcategory))),
        ("business_model"@, JVal::Str(c.business_model@)),
        ("addresses"@, JVal::Obj(account_addresses_members(c.addresses))),
    ]
}

impl<'a> CreateAccountProfile<'a> {
    /// Serializes these parameters as their JSON body.
    pub fn to_json(&self) -> (r: JsonValue)
        ensures
            r@ == JVal::Obj(account_profile_members(*self)),
    {
        let mut members: Vec<(String, JsonValue)> = Vec::new();
        members.push(
            (
                String::from_str("category"),
                JsonValue::Str(String::from_str(self.category.as_str())),
            ),
        );
        members.push(
            (
                String::from_str("subcategory"),
                JsonValue::Str(String::from_str(self.subcategory.as_str())),
            ),
        );
        members.push(
            (String::from_str("business_model"), JsonValue::Str(self.business_model.to_owned())),
        );
        members.push((String::from_str("addresses"), self.addresses.to_json()));
        let ghost cm = account_profile_members(*self);
        proof {
            let mv = crate::json::member_views_of(members@);
            assert(mv.len() == cm.len());
            assert forall|k: int| 0 <= k < mv.len() implies mv[k] == cm[k] by {
                assert(mv[k] == (members@[k].0@, members@[k].1.jval()));
            }
            assert(mv =~= cm);
        }
        JsonValue::Obj(members)
    }
}
/// The members account creation serializes to, in declaration order;
/// absent options are left out.
pub open spec fn create_account_members(c: CreateAccount) -> Seq<(Seq<char>, JVal)> {
    seq![
        ("email"@, JVal::Str(c.email@)),
        ("phone"@, JVal::Num(crate::num::dec_str(c.phone as int))),
        ("legal_business_name"@, JVal::Str(c.legal_business_name@)),
    ] + crate::common::seg_str("customer_facing_business_name"@, c.customer_facing_business_name)
        + seq![("business_type"@, JVal::Str(business_type_code(c.business_type)))]
        + crate::common::seg_str("reference_id"@, c.reference_id) + (match c.profile {
        Some(p) => seq![("profile"@, JVal::Obj(account_profile_members(p)))],
        None => Seq::empty(),
    }) + (match c.legal_info {
        Some(l) => seq![("legal_info"@, JVal::Obj(legal_info_members(l)))],
        None => Seq::empty(),
    }) + (match c.brand {
        Some(b) => seq![("brand"@, JVal::Obj(brand_info_members(b)))],
        None => Seq::empty(),
    }) + crate::common::seg_notes("notes"@, c.notes) + seq![
        ("contact_name"@, JVal::Str(c.contact_name@)),
    ] + (match c.contact_info {
        Some(ci) => seq![("contact_info"@, JVal::Obj(contact_info_members(ci)))],
        None => Seq::empty(),
    }) + (match c.apps {
        Some(a) => seq![("apps"@, JVal::Obj(account_apps_members(a)))],
        None => Seq::empty(),
    })
}

impl<'a> CreateAccount<'a> {
    /// Serializes the account parameters as their JSON body.
    pub fn to_json(&self) -> (r: JsonValue)
        ensures
            r@ == JVal::Obj(create_account_members(*self)),
    {
        let mut members: Vec<(String, JsonValue)> = Vec::new();
        members.push((String::from_str("email"), JsonValue::Str(self.email.to_owned())));
        members.push(
            (String::from_str("phone"), JsonValue::Num(crate::num::u64_to_string(self.phone))),
        );
        members.push(
            (
                String::from_str("legal_business_name"),
                JsonValue::Str(self.legal_business_name.to_owned()),
            ),
        );
        proof {
            assert(crate::json::member_views_of(members@) =~= seq![
                ("email"@, JVal::Str(self.email@)),
                ("phone"@, JVal::Num(crate::num::dec_str(self.phone as int))),
                ("legal_business_name"@, JVal::Str(self.legal_business_name@)),
            ]);
        }
        crate::common::push_seg_str(
            &mut members,
            "customer_facing_business_name",
            self.customer_facing_business_name,
        );
        let ghost pre_bt = crate::json::member_views_of(members@);
        members.push(
            (
                String::from_str("business_type"),
                JsonValue::Str(String::from_str(self.business_type.as_str())),
            ),
        );
        proof {
            assert(crate::json::member_views_of(members@) =~= pre_bt + seq![
                ("business_type"@, JVal::Str(business_type_code(self.business_type))),
            ]);
        }
        crate::common::push_seg_str(&mut members, "reference_id", self.reference_id);
        let ghost before_profile = crate::json::member_views_of(members@);
        match &self.profile {
            Some(p) => {
                let ghost pre = members@;
                members.push((String::from_str("profile"), p.to_json()));
                proof {
                    assert(crate::json::member_views_of(members@)
                        =~= crate::json::member_views_of(pre) + seq![
                        ("profile"@, JVal::Obj(account_profile_members(*p))),
                    ]);
                }
            },
            None => {
                proof {
                    assert(before_profile =~= before_profile + Seq::<(Seq<char>, JVal)>::empty());
                }
            },
        }
        let ghost before_legal = crate::json::member_views_of(members@);
        match &self.legal_info {
            Some(l) => {
                let ghost pre = members@;
                members.push((String::from_str("legal_info"), l.to_json()));
                proof {
                    assert(crate::json::member_views_of(members@)
                        =~= crate::json::member_views_of(pre) + seq![
                        ("legal_info"@, JVal::Obj(legal_info_members(*l))),
                    ]);
                }
            },
            None => {
                proof {
                    assert(before_legal =~= before_legal + Seq::<(Seq<char>, JVal)>::empty());
                }
            },
        }
        let ghost before_brand = crate::json::member_views_of(members@);
        match &self.brand {
            Some(b) => {
                let ghost pre = members@;
                members.push((String::from_str("brand"), b.to_json()));
                proof {
                    assert(crate::json::member_views_of(members@)
                        =~= crate::json::member_views_of(pre) + seq![
                        ("brand"@, JVal::Obj(brand_info_members(*b))),
                    ]);
                }
            },
            None => {
                proof {
                    assert(before_brand =~= before_brand + Seq::<(Seq<char>, JVal)>::empty());
                }
            },
        }
        crate::common::push_seg_notes(&mut members, "notes", &self.notes);
        let ghost pre_cn = crate::json::member_views_of(members@);
        members.push(
            (String::from_str("contact_name"), JsonValue::Str(self.contact_name.to_owned())),
        );
        proof {
            assert(crate::json::member_views_of(members@) =~= pre_cn + seq![
                ("contact_name"@, JVal::Str(self.contact_name@)),
            ]);
        }
        let ghost before_ci = crate::json::member_views_of(members@);
        match &self.contact_info {
            Some(ci) => {
                let ghost pre = members@;
                members.push((String::from_str("contact_info"), ci.to_json()));
                proof {
                    assert(crate::json::member_views_of(members@)
                        =~= crate::json::member_views_of(pre) + seq![
                        ("contact_info"@, JVal::Obj(contact_info_members(*ci))),
                    ]);
                }
            },
            None => {
                proof {
                    assert(before_ci =~= before_ci + Seq::<(Seq<char>, JVal)>::empty());
                }
            },
        }
        let ghost before_apps = crate::json::member_views_of(members@);
        match &self.apps {
            Some(a) => {
                let ghost pre = members@;
                members.push((String::from_str("apps"), a.to_json()));
                proof {
                    assert(crate::json::member_views_of(members@)
                        =~= crate::json::member_views_of(pre) + seq![
                        ("apps"@, JVal::Obj(account_apps_members(*a))),
                    ]);
                }
            },
            None => {
                proof {
                    assert(before_apps =~= before_apps + Seq::<(Seq<char>, JVal)>::empty());
                }
            },
        }
        JsonValue::Obj(members)
    }
}

impl Account {
    /// The request account creation sends: a POST to `/accounts` on
    /// API version `v2`.
    pub fn create_request(params: &CreateAccount<'_>) -> (r: RequestParams)
        ensures
            r.url@ == "/accounts"@,
            r.version matches Some(ver) && ver@ == "v2"@,
            r.data matches Some(d) && d@ == JVal::Obj(create_account_members(*params)),
    {
        RequestParams {
            url: String::from_str("/accounts"),
            version: Some(String::from_str("v2")),
            data: Some(params.to_json()),
        }
    }
}

} // verus!
